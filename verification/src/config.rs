use vstd::prelude::*;

verus! {

/// Configuration the server shares with its clients.
#[derive(Debug, Clone)]
pub struct SharedConfig {
    pub server: ConfigServer,
    pub auth: AuthConfig,
    pub email: Option<ConfigEmail>,
}

/// The server's name and whether it is reached over a secure connection.
#[derive(Debug, Clone)]
pub struct ConfigServer {
    pub name: String,
    pub is_secure: bool,
}

impl Default for ConfigServer {
    fn default() -> (res: Self)
        ensures
            res.name@.len() == 0,
            !res.is_secure,
    {
        ConfigServer { name: String::new(), is_secure: false }
    }
}

/// Whether new members may sign up, and the key the server signs with.
#[derive(Debug, Clone)]
pub struct AuthConfig {
    pub new_users: bool,
    pub auth_key: String,
}

/// An ASCII letter or digit.
pub open spec fn is_ascii_alphanumeric(c: char) -> bool {
    let u = c as u32;
    (0x30 <= u <= 0x39) || (0x41 <= u <= 0x5a) || (0x61 <= u <= 0x7a)
}

/// The length of a freshly made signing key.
pub open spec fn auth_key_len() -> nat {
    48
}

/// `Alphanumeric.sample_string(&mut rand::thread_rng(), len)`: `len`
/// characters, each drawn at random from `A`-`Z`, `a`-`z` and `0`-`9`.
/// Which characters come out is left open.
#[verifier::external_body]
fn random_alphanumeric(len: usize) -> (res: String)
    ensures
        res@.len() == len,
        forall|i: int| 0 <= i < res@.len() ==> is_ascii_alphanumeric(#[trigger] res@[i]),
{
    rand::distributions::DistString::sample_string(
        &rand::distributions::Alphanumeric,
        &mut rand::thread_rng(),
        len,
    )
}

impl Default for AuthConfig {
    /// Sign-up closed, and a fresh random key of 48 letters and digits.
    fn default() -> (res: Self)
        ensures
            !res.new_users,
            res.auth_key@.len() == auth_key_len(),
            forall|i: int|
                0 <= i < res.auth_key@.len() ==> is_ascii_alphanumeric(#[trigger] res.auth_key@[i]),
    {
        AuthConfig { new_users: false, auth_key: random_alphanumeric(48) }
    }
}

/// How the server sends mail.
#[derive(Debug, Clone)]
pub struct ConfigEmail {
    pub display_name: String,
    pub sending_email: String,
    pub contact_email: String,
    pub subject_line: String,
    pub smtp_username: String,
    pub smtp_password: String,
    pub smtp_relay: String,
}

impl Default for ConfigEmail {
    fn default() -> (res: Self)
        ensures
            res.display_name@.len() == 0,
            res.sending_email@.len() == 0,
            res.contact_email@.len() == 0,
            res.subject_line@.len() == 0,
            res.smtp_username@.len() == 0,
            res.smtp_password@.len() == 0,
            res.smtp_relay@.len() == 0,
    {
        ConfigEmail {
            display_name: String::new(),
            sending_email: String::new(),
            contact_email: String::new(),
            subject_line: String::new(),
            smtp_username: String::new(),
            smtp_password: String::new(),
            smtp_relay: String::new(),
        }
    }
}

} // verus!
