use vstd::prelude::*;
use crate::book_edit::PersonEdit;
use crate::text::{
    chars_of, decimal, digit_char, is_blank, is_blank_str, push_char, push_chars,
    push_str, string_from_chars,
};

verus! {

/// Which field of a person the editor changes.
#[derive(Debug, Clone, Copy, PartialEq, Eq, Structural)]
pub enum PersonChangingType {
    Name,
    Description,
    BirthDate,
    ThumbPath,
}

/// How many `-` the text holds.
pub open spec fn dash_count(s: Seq<char>) -> nat
    decreases s.len(),
{
    if s.len() == 0 {
        0
    } else {
        dash_count(s.drop_last()) + if s.last() == '-' {
            1nat
        } else {
            0nat
        }
    }
}

/// A partly entered date completed with the first month and day: a year
/// alone gets `-01-01`, a year and month get `-01`.
pub open spec fn padded_date(s: Seq<char>) -> Seq<char> {
    let n = dash_count(s);
    if n == 0 {
        s + "-01"@ + "-01"@
    } else if n <= 1 {
        s + "-01"@
    } else {
        s
    }
}

/// What `NaiveDate::from_str` reads from the text: year, month and day.
pub uninterp spec fn parsed_naive_date(s: Seq<char>) -> Option<(i32, u32, u32)>;

/// `chrono::NaiveDate::from_str` (`%Y-%m-%d`), taken apart into year, month
/// and day. The result is named `parsed_naive_date`; a date it gives is a
/// valid one, so its month is 1 to 12, its day 1 to 31, and its year within
/// chrono's range of -262143 to 262142.
#[verifier::external_body]
fn parse_naive_date(s: &str) -> (res: Option<(i32, u32, u32)>)
    ensures
        res == parsed_naive_date(s@),
        res matches Some((y, m, d)) ==> -262143 <= y <= 262142 && 1 <= m <= 12 && 1 <= d <= 31,
{
    match <chrono::NaiveDate as std::str::FromStr>::from_str(s) {
        Ok(d) => Some((chrono::Datelike::year(&d), chrono::Datelike::month(&d), chrono::Datelike::day(&d))),
        Err(_) => None,
    }
}

/// Two decimal digits of `n < 100`.
pub open spec fn two_digits(n: nat) -> Seq<char> {
    seq![digit_char((n / 10) % 10), digit_char(n % 10)]
}

/// `s` with zeros in front up to `w` characters.
pub open spec fn zero_padded(s: Seq<char>, w: nat) -> Seq<char> {
    if s.len() >= w {
        s
    } else {
        Seq::new((w - s.len()) as nat, |i: int| '0') + s
    }
}

/// The year as chrono writes it: four digits for years 0 to 9999, otherwise
/// a sign and at least four digits.
pub open spec fn year_text(y: int) -> Seq<char> {
    if 0 <= y <= 9999 {
        two_digits((y / 100) as nat) + two_digits((y % 100) as nat)
    } else if y < 0 {
        seq!['-'] + zero_padded(decimal((-y) as nat), 4)
    } else {
        seq!['+'] + zero_padded(decimal(y as nat), 4)
    }
}

/// A date as chrono writes it: `YYYY-MM-DD`.
pub open spec fn date_text(y: int, m: nat, d: nat) -> Seq<char> {
    year_text(y) + seq!['-'] + two_digits(m) + seq!['-'] + two_digits(d)
}

/// The birth date the editor keeps for entered text: blank text clears it;
/// otherwise the text is completed with the first month and day and read as
/// a date, and an unreadable date clears it too.
pub open spec fn birth_date_value(value: Seq<char>) -> Option<Seq<char>> {
    if is_blank(value) {
        None
    } else {
        match parsed_naive_date(padded_date(value)) {
            Some((y, m, d)) => Some(date_text(y as int, m as nat, d as nat)),
            None => None,
        }
    }
}

fn count_dashes(v: &Vec<char>) -> (res: usize)
    ensures
        res == dash_count(v@),
{
    let mut n: usize = 0;
    let mut i: usize = 0;
    while i < v.len()
        invariant
            0 <= i <= v.len(),
            n == dash_count(v@.take(i as int)),
            n <= i,
        decreases v.len() - i,
    {
        assert(v@.take(i + 1).drop_last() =~= v@.take(i as int));
        if v[i] == '-' {
            n = n + 1;
        }
        i = i + 1;
    }
    assert(v@.take(v.len() as int) =~= v@);
    n
}

/// Completes a partly entered date with the first month and day.
pub fn pad_partial_date(value: &str) -> (res: String)
    ensures
        res@ == padded_date(value@),
{
    let v = chars_of(value);
    let dashes = count_dashes(&v);
    let mut s = string_from_chars(&v);
    if dashes == 0 {
        push_str(&mut s, "-01");
    }
    if dashes <= 1 {
        push_str(&mut s, "-01");
    }
    s
}

fn digit(d: u32) -> (c: char)
    requires
        d < 10,
    ensures
        c == digit_char(d as nat),
{
    if d == 0 { '0' }
    else if d == 1 { '1' }
    else if d == 2 { '2' }
    else if d == 3 { '3' }
    else if d == 4 { '4' }
    else if d == 5 { '5' }
    else if d == 6 { '6' }
    else if d == 7 { '7' }
    else if d == 8 { '8' }
    else { '9' }
}

fn push_two_digits(s: &mut String, n: u32)
    requires
        n < 100,
    ensures
        final(s)@ == old(s)@ + two_digits(n as nat),
{
    push_char(s, digit((n / 10) % 10));
    push_char(s, digit(n % 10));
    assert(final(s)@ =~= old(s)@ + two_digits(n as nat));
}

fn push_padded_decimal(s: &mut String, n: u32)
    ensures
        final(s)@ == old(s)@ + zero_padded(decimal(n as nat), 4),
{
    let d = crate::text::decimal_string(n as u64);
    let digits = chars_of(d.as_str());
    let mut pad: Vec<char> = Vec::new();
    if digits.len() < 4 {
        let mut k: usize = 0;
        while k < 4 - digits.len()
            invariant
                digits.len() < 4,
                0 <= k <= 4 - digits.len(),
                pad@ == Seq::new(k as nat, |i: int| '0'),
            decreases 4 - digits.len() - k,
        {
            pad.push('0');
            assert(pad@ =~= Seq::new((k + 1) as nat, |i: int| '0'));
            k = k + 1;
        }
    }
    push_chars(s, &pad);
    push_chars(s, &digits);
    assert(final(s)@ =~= old(s)@ + zero_padded(decimal(n as nat), 4));
}

/// Writes a date as chrono does: `YYYY-MM-DD`.
pub fn format_date(y: i32, m: u32, d: u32) -> (res: String)
    requires
        -262143 <= y <= 262142,
        m < 100,
        d < 100,
    ensures
        res@ == date_text(y as int, m as nat, d as nat),
{
    let mut s = String::new();
    if 0 <= y && y <= 9999 {
        push_two_digits(&mut s, (y / 100) as u32);
        push_two_digits(&mut s, (y % 100) as u32);
    } else if y < 0 {
        push_char(&mut s, '-');
        push_padded_decimal(&mut s, (-y) as u32);
    } else {
        push_char(&mut s, '+');
        push_padded_decimal(&mut s, y as u32);
    }
    assert(s@ =~= year_text(y as int));
    push_char(&mut s, '-');
    push_two_digits(&mut s, m);
    push_char(&mut s, '-');
    push_two_digits(&mut s, d);
    assert(s@ =~= date_text(y as int, m as nat, d as nat));
    s
}

/// What the person editor makes of the text `value` entered for `change`.
pub open spec fn person_edit_post(before: PersonEdit, after: PersonEdit, change: PersonChangingType, value: Seq<char>) -> bool {
    let v: Option<Seq<char>> = if is_blank(value) {
        None
    } else {
        Some(value)
    };
    let text_is = |o: Option<String>, t: Option<Seq<char>>|
        match (o, t) {
            (None, None) => true,
            (Some(s), Some(x)) => s@ == x,
            _ => false,
        };
    match change {
        PersonChangingType::Name => text_is(after.name, v) && after == (PersonEdit {
            name: after.name,
            ..before
        }),
        PersonChangingType::Description => text_is(after.description, v) && after == (PersonEdit {
            description: after.description,
            ..before
        }),
        PersonChangingType::BirthDate => text_is(after.birth_date, birth_date_value(value))
            && after == (PersonEdit { birth_date: after.birth_date, ..before }),
        PersonChangingType::ThumbPath => false,
    }
}

/// Applies text entered in the person editor. Blank text clears the field; a
/// birth date is completed, read and written back as `YYYY-MM-DD`. Changing
/// the thumbnail path this way is not supported.
pub fn update_person_editing(edit: &mut PersonEdit, change: PersonChangingType, value: String)
    requires
        !(change is ThumbPath),
    ensures
        person_edit_post(*old(edit), *final(edit), change, value@),
{
    let blank = is_blank_str(value.as_str());
    match change {
        PersonChangingType::Name => {
            edit.name = if blank { None } else { Some(value) };
        },
        PersonChangingType::Description => {
            edit.description = if blank { None } else { Some(value) };
        },
        PersonChangingType::BirthDate => {
            edit.birth_date = if blank {
                None
            } else {
                let padded = pad_partial_date(value.as_str());
                match parse_naive_date(padded.as_str()) {
                    Some((y, m, d)) => Some(format_date(y, m, d)),
                    None => None,
                }
            };
        },
        PersonChangingType::ThumbPath => {},
    }
}

/// Enters or leaves edit mode on a person page once the person is loaded
/// (`loaded`); the edit starts afresh either way, and entering asks for the
/// posters when they were not loaded yet (the returned flag).
pub fn toggle_person_edit(is_editing: &mut bool, edit: &mut PersonEdit, loaded: bool, posters_loaded: bool) -> (reload_posters: bool)
    ensures
        !loaded ==> *final(is_editing) == *old(is_editing) && *final(edit) == *old(edit) && !reload_posters,
        loaded ==> {
            &&& *final(is_editing) == !*old(is_editing)
            &&& final(edit).name is None && final(edit).description is None
                && final(edit).birth_date is None && final(edit).added_images is None
                && final(edit).removed_images is None
            &&& reload_posters == (*final(is_editing) && !posters_loaded)
        },
{
    if !loaded {
        return false;
    }
    *is_editing = !*is_editing;
    *edit = PersonEdit::default();
    *is_editing && !posters_loaded
}

/// Entering text for a person's name or description sets that field, and
/// only that one, to the entered text; blank text clears it.
pub proof fn law_person_text_entered(
    before: PersonEdit,
    after: PersonEdit,
    change: PersonChangingType,
    value: Seq<char>,
)
    requires
        change is Name || change is Description,
        person_edit_post(before, after, change, value),
    ensures
        change is Name ==> {
            &&& !is_blank(value) ==> (after.name matches Some(t) && t@ == value)
            &&& is_blank(value) ==> after.name is None
            &&& after.description == before.description
        },
        change is Description ==> {
            &&& !is_blank(value) ==> (after.description matches Some(t) && t@ == value)
            &&& is_blank(value) ==> after.description is None
            &&& after.name == before.name
        },
        after.birth_date == before.birth_date,
        after.added_images == before.added_images,
        after.removed_images == before.removed_images,
{
}

} // verus!
