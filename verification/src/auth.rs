//! Sign-up and sign-in.

use vstd::prelude::*;

use crate::domain::entities::User;
use crate::domain::values::{email_shape, must_not_be_empty, Email, NonEmptyString};
use crate::error::{is_conflict, is_unauthorized, is_validation, AppError};
use crate::text::trimmed;

verus! {

#[derive(Debug, Clone)]
pub struct LoginCommand {
    pub email: String,
    pub password: String,
}

#[derive(Debug, Clone)]
pub struct RegisterCommand {
    pub display_name: String,
    pub email: String,
    pub password: String,
}

#[derive(Debug, Clone)]
pub struct AuthenticatedSession {
    pub access_token: String,
    pub user_id: String,
    pub display_name: String,
}

#[derive(Debug, Clone)]
pub struct RegisterUserRecord {
    pub user_id: String,
    pub email: String,
    pub password_hash: String,
    pub display_name: String,
}

/// Hashes and checks passwords.
pub trait PasswordHasher {
    fn hash_password(&self, password: &str) -> Result<String, AppError>;

    fn verify_password(&self, password: &str, password_hash: &str) -> Result<bool, AppError>;
}

/// Issues access tokens for users.
pub trait TokenIssuer {
    fn issue_access_token(&self, user_id: &str) -> Result<String, AppError>;
}

/// `answer` is what the hasher `h` answered when asked to check a password
/// with the text `password` against a hash with the text `password_hash`.
pub open spec fn hasher_answered<H: PasswordHasher>(
    h: &H,
    password: Seq<char>,
    password_hash: Seq<char>,
    answer: Result<bool, AppError>,
) -> bool {
    exists|p: &str, q: &str|
        p@ == password && q@ == password_hash && #[trigger] call_ensures(
            H::verify_password,
            (h, p, q),
            answer,
        )
}

/// `answer` is what the issuer `t` answered when asked for a token for the
/// user id `user_id`.
pub open spec fn issuer_answered<T: TokenIssuer>(t: &T, user_id: Seq<char>, answer: Result<String, AppError>) -> bool {
    exists|u: &str| u@ == user_id && #[trigger] call_ensures(T::issue_access_token, (t, u), answer)
}

/// Reads the user id out of an access token.
pub trait TokenVerifier {
    fn verify_access_token(&self, token: &str) -> Result<String, AppError>;
}

/// Entry point of authentication; holds the user repository, the password
/// hasher and the token issuer.
pub struct AuthUseCases<R, H, T> {
    pub users: R,
    pub password_hasher: H,
    pub token_issuer: T,
}

/// Whether a character has the Unicode `Alphabetic` property, as
/// `char::is_alphabetic` tells.
pub uninterp spec fn alphabetic(c: char) -> bool;

/// `char::is_alphabetic`.
#[verifier::external_body]
fn char_is_alphabetic(c: char) -> (r: bool)
    ensures
        r == alphabetic(c),
{
    c.is_alphabetic()
}

/// Bytes a character takes in UTF-8.
pub open spec fn utf8_width(c: char) -> int {
    if (c as int) < 0x80 {
        1
    } else if (c as int) < 0x800 {
        2
    } else if (c as int) < 0x10000 {
        3
    } else {
        4
    }
}

/// Length in bytes of the UTF-8 encoding of a text (what `str::len` gives).
pub open spec fn utf8_len(s: Seq<char>) -> int
    decreases s.len(),
{
    if s.len() == 0 {
        0
    } else {
        utf8_len(s.drop_last()) + utf8_width(s.last())
    }
}

pub open spec fn has_letter(s: Seq<char>) -> bool {
    exists|i: int| 0 <= i < s.len() && alphabetic(#[trigger] s[i])
}

pub open spec fn has_ascii_digit(s: Seq<char>) -> bool {
    exists|i: int| 0 <= i < s.len() && '0' <= #[trigger] s[i] && s[i] <= '9'
}

/// A password of 8 to 128 bytes with a letter and a digit.
pub open spec fn password_ok(password: Seq<char>) -> bool {
    &&& 8 <= utf8_len(password) <= 128
    &&& has_letter(password)
    &&& has_ascii_digit(password)
}

impl<R, H: PasswordHasher, T: TokenIssuer> AuthUseCases<R, H, T> {
    pub fn new(users: R, password_hasher: H, token_issuer: T) -> (r: Self)
        ensures
            r.users == users,
            r.password_hasher == password_hasher,
            r.token_issuer == token_issuer,
    {
        AuthUseCases { users, password_hasher, token_issuer }
    }

    /// Signs in the user found by e-mail (`None` when there is none): it must
    /// exist, be active and have this password (the hasher checks the
    /// command's password against the stored hash); then a token is issued
    /// for the user's id.
    pub fn login_user(&self, user: Option<&User>, command: &LoginCommand) -> (r: Result<AuthenticatedSession, AppError>)
        ensures
            user is None ==> (r matches Err(e) && is_unauthorized(e, "invalid credentials"@)),
            user matches Some(u) ==> (!u.is_active ==> (r matches Err(e) && is_unauthorized(
                e,
                "inactive user"@,
            ))),
            user matches Some(u) ==> (u.is_active ==> match r {
                Ok(s) => hasher_answered(&self.password_hasher, command.password@, u.password_hash@, Ok(true))
                    && issuer_answered(&self.token_issuer, u.id@, Ok(s.access_token)) && s.user_id == u.id
                    && s.display_name == u.display_name,
                Err(e) => (hasher_answered(&self.password_hasher, 
                    command.password@,
                    u.password_hash@,
                    Ok(false),
                ) && is_unauthorized(e, "invalid credentials"@)) || hasher_answered(&self.password_hasher, 
                    command.password@,
                    u.password_hash@,
                    Err(e),
                ) || (hasher_answered(&self.password_hasher, command.password@, u.password_hash@, Ok(true))
                    && issuer_answered(&self.token_issuer, u.id@, Err(e))),
            }),
    {
        let user = match check_login_user(user) {
            Ok(u) => u,
            Err(e) => return Err(e),
        };
        let password = command.password.as_str();
        let password_hash = user.password_hash.as_str();
        let verdict = self.password_hasher.verify_password(password, password_hash);
        assert(hasher_answered(&self.password_hasher, command.password@, user.password_hash@, verdict)) by {
            assert(call_ensures(H::verify_password, (&self.password_hasher, password, password_hash), verdict));
        }
        match password_verdict(verdict) {
            Ok(()) => {},
            Err(e) => return Err(e),
        }
        let user_id = user.id.as_str();
        let issued = self.token_issuer.issue_access_token(user_id);
        assert(issuer_answered(&self.token_issuer, user.id@, issued)) by {
            assert(call_ensures(T::issue_access_token, (&self.token_issuer, user_id), issued));
        }
        let access_token = match issued {
            Ok(t) => t,
            Err(e) => return Err(e),
        };
        Ok(
            AuthenticatedSession {
                access_token,
                user_id: user.id.clone(),
                display_name: user.display_name.clone(),
            },
        )
    }
}

/// The account a sign-in is for: it must exist and be active.
pub fn check_login_user(user: Option<&User>) -> (r: Result<&User, AppError>)
    ensures
        user is None ==> (r matches Err(e) && is_unauthorized(e, "invalid credentials"@)),
        user matches Some(u) ==> if u.is_active {
            r matches Ok(x) && *x == *u
        } else {
            (r matches Err(e) && is_unauthorized(e, "inactive user"@))
        },
{
    match user {
        None => Err(AppError::unauthorized("invalid credentials")),
        Some(u) => {
            if !u.is_active {
                return Err(AppError::unauthorized("inactive user"));
            }
            Ok(u)
        },
    }
}

/// What a password check means for a sign-in: a mismatch is refused as
/// invalid credentials, and a failing check is passed on.
pub fn password_verdict(valid: Result<bool, AppError>) -> (r: Result<(), AppError>)
    ensures
        match valid {
            Ok(true) => r is Ok,
            Ok(false) => (r matches Err(e) && is_unauthorized(e, "invalid credentials"@)),
            Err(e) => r == Err::<(), AppError>(e),
        },
{
    match valid {
        Ok(true) => Ok(()),
        Ok(false) => Err(AppError::unauthorized("invalid credentials")),
        Err(e) => Err(e),
    }
}

/// The checked display name and e-mail of a registration.
#[derive(Debug, Clone)]
pub struct Registration {
    pub display_name: String,
    pub email: String,
}

/// Checks a registration: display name, e-mail, then the password's length
/// (in bytes) and its mix of a letter and a digit.
pub fn validate_registration(command: &RegisterCommand) -> (r: Result<Registration, AppError>)
    ensures
        r is Ok <==> trimmed(command.display_name@).len() > 0 && email_shape(trimmed(command.email@))
            && password_ok(command.password@),
        r matches Ok(reg) ==> reg.display_name@ == trimmed(command.display_name@) && reg.email@
            == trimmed(command.email@),
        trimmed(command.display_name@).len() == 0 ==> (r matches Err(e) && is_validation(
            e,
            must_not_be_empty("display_name"@),
        )),
        trimmed(command.display_name@).len() > 0 && !email_shape(trimmed(command.email@)) ==> (r matches Err(e)
            && is_validation(e, "email must be a valid address"@)),
        trimmed(command.display_name@).len() > 0 && email_shape(trimmed(command.email@)) && !(8
            <= utf8_len(command.password@) <= 128) ==> (r matches Err(e)
            && is_validation(e, "password must be between 8 and 128 characters"@)),
        trimmed(command.display_name@).len() > 0 && email_shape(trimmed(command.email@)) && 8
            <= utf8_len(command.password@) <= 128 && !(has_letter(command.password@)
            && has_ascii_digit(command.password@)) ==> (r matches Err(e) && is_validation(
            e,
            "password must contain at least one letter and one number"@,
        )),
{
    let display_name = match NonEmptyString::new(command.display_name.clone(), "display_name") {
        Ok(n) => n.value,
        Err(e) => return Err(e),
    };
    let email = match Email::new(command.email.clone()) {
        Ok(e) => e.value,
        Err(e) => return Err(e),
    };
    let password = command.password.as_str();
    let n = password.unicode_len();
    let mut bytes: u128 = 0;
    let mut k: usize = 0;
    while k < n
        invariant
            n == password@.len(),
            k <= n,
            bytes == utf8_len(password@.take(k as int)),
            bytes <= 4 * k,
        decreases n - k,
    {
        assert(password@.take(k + 1).drop_last() =~= password@.take(k as int));
        let c = password.get_char(k);
        let w: u128 = if (c as u32) < 0x80 {
            1
        } else if (c as u32) < 0x800 {
            2
        } else if (c as u32) < 0x10000 {
            3
        } else {
            4
        };
        bytes = bytes + w;
        k = k + 1;
    }
    assert(password@.take(n as int) =~= password@);
    if bytes < 8 || bytes > 128 {
        return Err(AppError::validation("password must be between 8 and 128 characters"));
    }
    let mut letter = false;
    let mut digit = false;
    let mut i: usize = 0;
    while i < n
        invariant
            n == password@.len(),
            i <= n,
            letter == exists|j: int| 0 <= j < i && alphabetic(#[trigger] password@[j]),
            digit == exists|j: int| 0 <= j < i && '0' <= #[trigger] password@[j] && password@[j] <= '9',
        decreases n - i,
    {
        let c = password.get_char(i);
        if char_is_alphabetic(c) {
            letter = true;
        }
        if '0' <= c && c <= '9' {
            digit = true;
        }
        i = i + 1;
    }
    if !letter || !digit {
        return Err(AppError::validation("password must contain at least one letter and one number"));
    }
    Ok(Registration { display_name, email })
}

/// An address that is already registered cannot register again.
pub fn check_email_free(already_registered: bool) -> (r: Result<(), AppError>)
    ensures
        !already_registered ==> r is Ok,
        already_registered ==> (r matches Err(e) && is_conflict(e, "email is already registered"@)),
{
    if already_registered {
        return Err(AppError::conflict("email is already registered"));
    }
    Ok(())
}

} // verus!
