use crate::clock::{is_clock_seconds, now_seconds};
use crate::text::chars_of;
use uuid::Uuid;
use vstd::prelude::*;
use vstd::string::{StringExecFns, StringSliceAdditionalSpecFns};

verus! {

/// What can go wrong when a user is authenticated.
#[derive(Debug)]
pub enum AuthError {
    InvalidCredentials,
    TokenExpired,
    InvalidToken,
    UserNotFound,
    EmailAlreadyExists,
    PasswordHashingFailed,
    JwtError(String),
}

impl AuthError {
    /// What the error says, without the detail that a `JwtError` carries.
    pub open spec fn headline(self) -> Seq<char> {
        match self {
            AuthError::InvalidCredentials => "Invalid credentials"@,
            AuthError::TokenExpired => "Token expired"@,
            AuthError::InvalidToken => "Invalid token"@,
            AuthError::UserNotFound => "User not found"@,
            AuthError::EmailAlreadyExists => "Email already exists"@,
            AuthError::PasswordHashingFailed => "Password hashing failed"@,
            AuthError::JwtError(_) => "JWT error: "@,
        }
    }

    /// The detail that the error carries: none but for a `JwtError`.
    pub open spec fn detail(self) -> Seq<char> {
        match self {
            AuthError::JwtError(detail) => detail@,
            _ => Seq::empty(),
        }
    }

    /// The error in words: its headline, and its detail after it.
    pub fn message(&self) -> (text: String)
        ensures
            text@ == self.headline() + self.detail(),
    {
        let text = match self {
            AuthError::InvalidCredentials => String::from_str("Invalid credentials"),
            AuthError::TokenExpired => String::from_str("Token expired"),
            AuthError::InvalidToken => String::from_str("Invalid token"),
            AuthError::UserNotFound => String::from_str("User not found"),
            AuthError::EmailAlreadyExists => String::from_str("Email already exists"),
            AuthError::PasswordHashingFailed => String::from_str("Password hashing failed"),
            AuthError::JwtError(detail) => {
                let mut text = String::from_str("JWT error: ");
                text.append(detail.as_str());
                text
            },
        };
        assert(text@ =~= self.headline() + self.detail());
        text
    }
}

/// Seconds in one hour.
pub const SECONDS_PER_HOUR: i64 = 3600;

/// What a token says of its bearer. Times are seconds since the Unix epoch.
#[derive(Debug, Clone)]
pub struct Claims {
    /// The user's identifier.
    pub sub: String,
    pub email: String,
    pub name: String,
    /// When the token expires.
    pub exp: i64,
    /// When the token was issued.
    pub iat: i64,
}

/// The error of `uuid`.
#[verifier::external_type_specification]
#[verifier::external_body]
pub struct ExUuidError(uuid::Error);

/// The identifier that `Uuid::parse_str` reads a text as; none for a text
/// that it does not read.
pub uninterp spec fn parsed_uuid(text: Seq<char>) -> Option<Uuid>;

/// Whether a text stands for an identifier.
pub open spec fn is_uuid_text(text: Seq<char>) -> bool {
    parsed_uuid(text) is Some
}

/// `Uuid::parse_str`: the identifier that a text of hexadecimal digits, with
/// or without hyphens, stands for, or an error for any other text.
#[verifier::external_body]
fn uuid_parse(text: &str) -> (parsed: Result<Uuid, uuid::Error>)
    ensures
        parsed matches Ok(id) ==> parsed_uuid(text@) == Some(id),
        parsed is Err ==> parsed_uuid(text@) is None,
{
    Uuid::parse_str(text)
}

/// `Uuid`'s `to_string`: the identifier in lower-case hexadecimal digits with
/// hyphens, a form that `Uuid::parse_str` reads back as the same identifier.
#[verifier::external_body]
fn uuid_text(id: &Uuid) -> (text: String)
    ensures
        parsed_uuid(text@) == Some(*id),
{
    id.to_string()
}

impl Claims {
    /// Claims for the user `user_id`, issued now, that expire
    /// `expires_in_hours` hours later; `None` where that instant cannot be
    /// held. With a lifetime that fits after every reading of the clock, as
    /// any lifetime of everyday length does, there are claims.
    pub fn new(user_id: Uuid, email: String, name: String, expires_in_hours: i64) -> (claims:
        Option<Claims>)
        ensures
            exists|now: i64|
                #![trigger is_clock_seconds(now)]
                is_clock_seconds(now) && issued_by_clock(
                    claims,
                    user_id,
                    email,
                    name,
                    now,
                    expires_in_hours,
                ),
            lifetime_always_fits(expires_in_hours) ==> claims is Some,
    {
        let now = now_seconds();
        let claims = Claims::issued_at(uuid_text(&user_id), email, name, now, expires_in_hours);
        assert(is_clock_seconds(now) && issued_by_clock(
            claims,
            user_id,
            email,
            name,
            now,
            expires_in_hours,
        ));
        claims
    }

    /// Claims issued at `issued_at` that expire `expires_in_hours` hours
    /// later; `None` where that instant cannot be held.
    pub fn issued_at(
        user_id: String,
        email: String,
        name: String,
        issued_at: i64,
        expires_in_hours: i64,
    ) -> (claims: Option<Claims>)
        ensures
            claims is Some <==> i64::MIN <= issued_at + expires_in_hours * 3600 <= i64::MAX,
            claims matches Some(c) ==> {
                &&& c.sub == user_id
                &&& c.email == email
                &&& c.name == name
                &&& c.iat == issued_at
                &&& c.exp == issued_at + expires_in_hours * 3600
            },
    {
        let lifetime: i128 = expires_in_hours as i128 * 3600;
        let expires: i128 = issued_at as i128 + lifetime;
        if expires < i64::MIN as i128 || expires > i64::MAX as i128 {
            return None;
        }
        Some(Claims { sub: user_id, email, name, exp: expires as i64, iat: issued_at })
    }

    /// Whether the claims have expired at `now`: whether `now` lies after
    /// the expiry.
    pub fn is_expired_at(&self, now: i64) -> (expired: bool)
        ensures
            expired == (now > self.exp),
    {
        now > self.exp
    }

    /// Whether the claims have expired by the system clock: whether its
    /// reading lies after the expiry. Claims that expired before the epoch
    /// have expired, and claims that expire after every reading have not.
    pub fn is_expired(&self) -> (expired: bool)
        ensures
            exists|now: i64|
                #![trigger is_clock_seconds(now)]
                is_clock_seconds(now) && expired == (now > self.exp),
            self.exp < 0 ==> expired,
            self.exp >= 0xffff_ffff_ffff ==> !expired,
    {
        let now = now_seconds();
        let expired = self.is_expired_at(now);
        assert(is_clock_seconds(now) && expired == (now > self.exp));
        expired
    }
}

/// Whether `claims` is what comes of issuing claims for the user `user_id`
/// at the reading `now` of the clock with a lifetime of `expires_in_hours`
/// hours: claims where the expiry can be held, whose subject is the user's
/// identifier written out, and none where it cannot.
pub open spec fn issued_by_clock(
    claims: Option<Claims>,
    user_id: Uuid,
    email: String,
    name: String,
    now: i64,
    expires_in_hours: i64,
) -> bool {
    &&& claims is Some <==> i64::MIN <= now + expires_in_hours * 3600 <= i64::MAX
    &&& claims matches Some(c) ==> {
        &&& parsed_uuid(c.sub@) == Some(user_id)
        &&& c.email == email
        &&& c.name == name
        &&& c.iat == now
        &&& c.exp == now + expires_in_hours * 3600
    }
}

/// Whether a lifetime fits after every reading of the clock: whether its
/// end can be held whenever it begins.
pub open spec fn lifetime_always_fits(expires_in_hours: i64) -> bool {
    i64::MIN <= expires_in_hours * 3600 && expires_in_hours * 3600 + 0xffff_ffff_ffff <= i64::MAX
}

/// Issues and checks credentials with one secret.
pub struct AuthService {
    jwt_secret: String,
}

impl AuthService {
    pub closed spec fn secret(&self) -> Seq<char> {
        self.jwt_secret@
    }

    pub fn new(jwt_secret: String) -> (service: AuthService)
        ensures
            service.secret() == jwt_secret@,
    {
        AuthService { jwt_secret }
    }

    pub fn jwt_secret(&self) -> (secret: &String)
        ensures
            secret@ == self.secret(),
    {
        &self.jwt_secret
    }

    /// A fresh bcrypt hash of `password`, one that `verify_password` accepts
    /// for `password`; `PasswordHashingFailed` where no hash could be made.
    pub fn hash_password(&self, password: &str) -> (hashed: Result<String, AuthError>)
        ensures
            hashed matches Ok(text) ==> bcrypt_outcome(password@, text@) == Some(true),
            hashed matches Err(e) ==> e is PasswordHashingFailed,
    {
        judge_hash(bcrypt_hash(password))
    }

    /// Whether `password` is the one that `hash` was made from;
    /// `InvalidCredentials` where `hash` is no bcrypt hash.
    pub fn verify_password(&self, password: &str, hash: &str) -> (verdict: Result<bool, AuthError>)
        ensures
            verdict == password_verdict(bcrypt_outcome(password@, hash@)),
    {
        match bcrypt_verify(password, hash) {
            Ok(matches) => judge_password(Some(matches)),
            Err(_) => judge_password(None),
        }
    }
}

/// The error of `bcrypt`.
#[verifier::external_type_specification]
#[verifier::external_body]
pub struct ExBcryptError(bcrypt::BcryptError);

/// What `bcrypt::verify` finds of a password and a hash: whether they match,
/// or nothing where it fails.
pub uninterp spec fn bcrypt_outcome(password: Seq<char>, hash: Seq<char>) -> Option<bool>;

/// `bcrypt::hash` at `bcrypt::DEFAULT_COST`: a hash of the password with a
/// salt drawn at random, or an error where no salt could be drawn. Which
/// hash it is depends on the salt; whichever it is, `bcrypt::verify` finds
/// that the password matches it.
#[verifier::external_body]
fn bcrypt_hash(password: &str) -> (outcome: Result<String, bcrypt::BcryptError>)
    ensures
        outcome matches Ok(text) ==> bcrypt_outcome(password@, text@) == Some(true),
{
    bcrypt::hash(password, bcrypt::DEFAULT_COST)
}

/// What hashing a password comes to, given the outcome of the hashing: the
/// hash, or `PasswordHashingFailed` for any error.
pub fn judge_hash(outcome: Result<String, bcrypt::BcryptError>) -> (hashed: Result<
    String,
    AuthError,
>)
    ensures
        outcome matches Ok(text) ==> hashed == Ok::<String, AuthError>(text),
        outcome is Err ==> hashed == Err::<String, AuthError>(AuthError::PasswordHashingFailed),
{
    match outcome {
        Ok(text) => Ok(text),
        Err(_) => Err(AuthError::PasswordHashingFailed),
    }
}

/// `bcrypt::verify`: whether hashing the password with the salt and cost of
/// `hash` gives `hash`; an error where `hash` is not well formed.
#[verifier::external_body]
fn bcrypt_verify(password: &str, hash: &str) -> (outcome: Result<bool, bcrypt::BcryptError>)
    ensures
        outcome matches Ok(matches) ==> bcrypt_outcome(password@, hash@) == Some(matches),
        outcome is Err ==> bcrypt_outcome(password@, hash@) is None,
{
    bcrypt::verify(password, hash)
}

/// The verdict on a password, given what the comparison found.
pub open spec fn password_verdict(outcome: Option<bool>) -> Result<bool, AuthError> {
    match outcome {
        Some(matches) => Ok(matches),
        None => Err(AuthError::InvalidCredentials),
    }
}

/// The verdict on a password, given what the comparison found:
/// `InvalidCredentials` where it found nothing.
pub fn judge_password(outcome: Option<bool>) -> (verdict: Result<bool, AuthError>)
    ensures
        verdict == password_verdict(outcome),
{
    match outcome {
        Some(matches) => Ok(matches),
        None => Err(AuthError::InvalidCredentials),
    }
}

/// The settings of an `AuthService`.
#[derive(Debug, Clone)]
pub struct AuthConfig {
    pub jwt_secret: String,
    pub token_expiry_hours: i64,
    pub refresh_token_expiry_days: i64,
}

impl Default for AuthConfig {
    fn default() -> (config: AuthConfig)
        ensures
            config.jwt_secret@ == "your-secret-key-change-in-production"@,
            config.token_expiry_hours == 24,
            config.refresh_token_expiry_days == 30,
    {
        AuthConfig {
            jwt_secret: String::from_str("your-secret-key-change-in-production"),
            token_expiry_hours: 24,
            refresh_token_expiry_days: 30,
        }
    }
}

/// The user that a request was made for.
#[derive(Debug, Clone)]
pub struct AuthenticatedUser {
    pub id: Uuid,
    pub email: String,
    pub name: String,
}

impl AuthenticatedUser {
    /// The user that claims speak of, given the identifier that their subject
    /// was read as: `InvalidToken` where it was read as none.
    pub fn from_parts(id: Option<Uuid>, email: String, name: String) -> (user: Result<
        AuthenticatedUser,
        AuthError,
    >)
        ensures
            id matches Some(value) ==> user == Ok::<AuthenticatedUser, AuthError>(
                AuthenticatedUser { id: value, email, name },
            ),
            id is None ==> user == Err::<AuthenticatedUser, AuthError>(AuthError::InvalidToken),
    {
        match id {
            Some(value) => Ok(AuthenticatedUser { id: value, email, name }),
            None => Err(AuthError::InvalidToken),
        }
    }

    /// The user that `claims` speak of: the user whose identifier their
    /// subject stands for, with their email and name; `InvalidToken` where
    /// their subject is no identifier.
    pub fn from_claims(claims: Claims) -> (user: Result<AuthenticatedUser, AuthError>)
        ensures
            parsed_uuid(claims.sub@) matches Some(id) ==> user == Ok::<
                AuthenticatedUser,
                AuthError,
            >(AuthenticatedUser { id, email: claims.email, name: claims.name }),
            parsed_uuid(claims.sub@) is None ==> user == Err::<AuthenticatedUser, AuthError>(
                AuthError::InvalidToken,
            ),
    {
        match uuid_parse(claims.sub.as_str()) {
            Ok(id) => AuthenticatedUser::from_parts(Some(id), claims.email, claims.name),
            Err(_) => AuthenticatedUser::from_parts(None, claims.email, claims.name),
        }
    }
}

/// Whether `char::is_uppercase` holds of a character.
pub uninterp spec fn is_uppercase_char(c: char) -> bool;

/// Whether `char::is_lowercase` holds of a character.
pub uninterp spec fn is_lowercase_char(c: char) -> bool;

/// Whether `char::is_numeric` holds of a character.
pub uninterp spec fn is_numeric_char(c: char) -> bool;

/// `char::is_uppercase`: whether the character has the Unicode property
/// `Uppercase`.
#[verifier::external_body]
fn char_is_uppercase(c: char) -> (answer: bool)
    ensures
        answer == is_uppercase_char(c),
{
    c.is_uppercase()
}

/// `char::is_lowercase`: whether the character has the Unicode property
/// `Lowercase`.
#[verifier::external_body]
fn char_is_lowercase(c: char) -> (answer: bool)
    ensures
        answer == is_lowercase_char(c),
{
    c.is_lowercase()
}

/// `char::is_numeric`: whether the character is in one of the Unicode
/// general categories for numbers.
#[verifier::external_body]
fn char_is_numeric(c: char) -> (answer: bool)
    ensures
        answer == is_numeric_char(c),
{
    c.is_numeric()
}

/// The characters that count as special in a password.
pub open spec fn is_special_char(c: char) -> bool {
    "!@#$%^&*()_+-=[]{}|;:,.<>?"@.contains(c)
}

/// What a password is made of, as far as the rules ask.
#[derive(Clone, Copy, Debug, PartialEq, Eq, Structural)]
pub struct PasswordTraits {
    /// At least eight bytes long.
    pub long_enough: bool,
    pub has_uppercase: bool,
    pub has_lowercase: bool,
    pub has_number: bool,
    pub has_special: bool,
}

/// The traits of a password.
pub open spec fn traits_of(password: &str) -> PasswordTraits {
    PasswordTraits {
        long_enough: password.spec_bytes().len() >= 8,
        has_uppercase: exists|i: int|
            0 <= i < password@.len() && is_uppercase_char(#[trigger] password@[i]),
        has_lowercase: exists|i: int|
            0 <= i < password@.len() && is_lowercase_char(#[trigger] password@[i]),
        has_number: exists|i: int|
            0 <= i < password@.len() && is_numeric_char(#[trigger] password@[i]),
        has_special: exists|i: int|
            0 <= i < password@.len() && is_special_char(#[trigger] password@[i]),
    }
}

/// The complaints about a password with these traits: one for each rule it
/// breaks, in the order length, uppercase, lowercase, number, special
/// character.
pub open spec fn complaints_about(traits: PasswordTraits) -> Seq<Seq<char>> {
    (if traits.long_enough {
        Seq::<Seq<char>>::empty()
    } else {
        seq!["Password must be at least 8 characters long"@]
    }) + (if traits.has_uppercase {
        Seq::<Seq<char>>::empty()
    } else {
        seq!["Password must contain at least one uppercase letter"@]
    }) + (if traits.has_lowercase {
        Seq::<Seq<char>>::empty()
    } else {
        seq!["Password must contain at least one lowercase letter"@]
    }) + (if traits.has_number {
        Seq::<Seq<char>>::empty()
    } else {
        seq!["Password must contain at least one number"@]
    }) + (if traits.has_special {
        Seq::<Seq<char>>::empty()
    } else {
        seq!["Password must contain at least one special character"@]
    })
}

/// The texts of a list of strings.
pub open spec fn texts_of(list: Seq<String>) -> Seq<Seq<char>> {
    list.map_values(|s: String| s@)
}

/// Whether `c` is one of the special characters.
fn char_is_special(c: char) -> (answer: bool)
    ensures
        answer == is_special_char(c),
{
    let specials = chars_of("!@#$%^&*()_+-=[]{}|;:,.<>?");
    let mut i: usize = 0;
    while i < specials.len()
        invariant
            specials@ == "!@#$%^&*()_+-=[]{}|;:,.<>?"@,
            i <= specials@.len(),
            forall|j: int| 0 <= j < i ==> specials@[j] != c,
        decreases specials@.len() - i,
    {
        if specials[i] == c {
            assert(specials@[i as int] == c);
            return true;
        }
        i = i + 1;
    }
    false
}

/// Checks passwords against the rules.
pub struct PasswordValidator;

impl PasswordValidator {
    /// The traits of `password`.
    pub fn inspect(password: &str) -> (traits: PasswordTraits)
        ensures
            traits == traits_of(password),
    {
        let chars = chars_of(password);
        let mut has_uppercase = false;
        let mut has_lowercase = false;
        let mut has_number = false;
        let mut has_special = false;
        let mut i: usize = 0;
        while i < chars.len()
            invariant
                chars@ == password@,
                i <= chars@.len(),
                has_uppercase == exists|j: int|
                    0 <= j < i && is_uppercase_char(#[trigger] password@[j]),
                has_lowercase == exists|j: int|
                    0 <= j < i && is_lowercase_char(#[trigger] password@[j]),
                has_number == exists|j: int| 0 <= j < i && is_numeric_char(#[trigger] password@[j]),
                has_special == exists|j: int|
                    0 <= j < i && is_special_char(#[trigger] password@[j]),
            decreases chars@.len() - i,
        {
            let c = chars[i];
            if char_is_uppercase(c) {
                has_uppercase = true;
            }
            if char_is_lowercase(c) {
                has_lowercase = true;
            }
            if char_is_numeric(c) {
                has_number = true;
            }
            if char_is_special(c) {
                has_special = true;
            }
            i = i + 1;
        }
        let long_enough = password.as_bytes().len() >= 8;
        assert(long_enough == traits_of(password).long_enough);
        assert(has_uppercase == traits_of(password).has_uppercase);
        assert(has_lowercase == traits_of(password).has_lowercase);
        assert(has_number == traits_of(password).has_number);
        assert(has_special == traits_of(password).has_special);
        PasswordTraits { long_enough, has_uppercase, has_lowercase, has_number, has_special }
    }

    /// The verdict on a password with these traits: `Ok` where it keeps every
    /// rule, else the complaints.
    pub fn judge(traits: PasswordTraits) -> (verdict: Result<(), Vec<String>>)
        ensures
            verdict is Ok <==> complaints_about(traits).len() == 0,
            verdict matches Err(errors) ==> texts_of(errors@) == complaints_about(traits),
    {
        let mut errors: Vec<String> = Vec::new();
        if !traits.long_enough {
            errors.push(String::from_str("Password must be at least 8 characters long"));
        }
        if !traits.has_uppercase {
            errors.push(String::from_str("Password must contain at least one uppercase letter"));
        }
        if !traits.has_lowercase {
            errors.push(String::from_str("Password must contain at least one lowercase letter"));
        }
        if !traits.has_number {
            errors.push(String::from_str("Password must contain at least one number"));
        }
        if !traits.has_special {
            errors.push(String::from_str("Password must contain at least one special character"));
        }
        assert(texts_of(errors@) =~= complaints_about(traits));
        if errors.len() == 0 {
            Ok(())
        } else {
            Err(errors)
        }
    }

    /// `Ok` for a password that keeps every rule, else one complaint for
    /// each rule it breaks.
    pub fn validate(password: &str) -> (verdict: Result<(), Vec<String>>)
        ensures
            verdict is Ok <==> complaints_about(traits_of(password)).len() == 0,
            verdict matches Err(errors) ==> texts_of(errors@) == complaints_about(
                traits_of(password),
            ),
    {
        PasswordValidator::judge(PasswordValidator::inspect(password))
    }
}

/// Limits how often one party may try to authenticate. It keeps no record
/// yet: every attempt is allowed.
#[derive(Debug, Clone)]
pub struct RateLimiter {
    max_attempts: u32,
    window_minutes: u32,
}

impl RateLimiter {
    pub closed spec fn spec_max_attempts(&self) -> u32 {
        self.max_attempts
    }

    pub closed spec fn spec_window_minutes(&self) -> u32 {
        self.window_minutes
    }

    pub fn new(max_attempts: u32, window_minutes: u32) -> (limiter: RateLimiter)
        ensures
            limiter.spec_max_attempts() == max_attempts,
            limiter.spec_window_minutes() == window_minutes,
    {
        RateLimiter { max_attempts, window_minutes }
    }

    pub fn max_attempts(&self) -> (n: u32)
        ensures
            n == self.spec_max_attempts(),
    {
        self.max_attempts
    }

    pub fn window_minutes(&self) -> (n: u32)
        ensures
            n == self.spec_window_minutes(),
    {
        self.window_minutes
    }

    /// Whether `_identifier` may try again: always.
    pub fn check_rate_limit(&self, _identifier: &str) -> (allowed: bool)
        ensures
            allowed,
    {
        true
    }

    /// Notes an attempt of `_identifier`. Nothing is recorded.
    pub fn record_attempt(&self, _identifier: &str) {
    }
}

} // verus!
