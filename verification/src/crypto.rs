//! Password hashing with Argon2, through the `argon2` crate.

use vstd::prelude::*;
use crate::text::count_char;
use argon2::Error as ArgonLibError;

verus! {

use Argon2ErrorKind as Kind;

/// The Argon2 variants that a password hash can be computed with.
#[derive(Clone, Copy, Debug, PartialEq, Eq)]
pub enum HashVariant {
    Argon2d,
    Argon2i,
    Argon2id,
}

/// The reasons the `argon2` crate gives for refusing an input.
#[derive(Clone, Copy, Debug, PartialEq, Eq)]
pub enum Argon2ErrorKind {
    OutputTooShort,
    OutputTooLong,
    PwdTooShort,
    PwdTooLong,
    SaltTooShort,
    SaltTooLong,
    AdTooShort,
    AdTooLong,
    SecretTooShort,
    SecretTooLong,
    TimeTooSmall,
    TimeTooLarge,
    MemoryTooLittle,
    MemoryTooMuch,
    LanesTooFew,
    LanesTooMany,
    IncorrectType,
    IncorrectVersion,
    DecodingFail,
}

/// An error of the `argon2` crate: its kind and the text it displays.
#[derive(Debug)]
pub struct Argon2Error {
    pub kind: Argon2ErrorKind,
    pub text: String,
}

/// The encoded hash (`$argon2..$v=..$m=..,t=..,p=..$salt$hash`) that
/// `argon2::hash_encoded` computes for a password and a salt, with the
/// crate's default parameters and the given variant.
pub uninterp spec fn argon2_encoded_hash(pwd: Seq<u8>, salt: Seq<u8>, variant: HashVariant) -> Seq<char>;

/// What `argon2::verify_encoded` answers for an encoded hash and a
/// password: `Some(b)` where it returns `Ok(b)`, `None` where it fails.
pub uninterp spec fn argon2_verify(encoded: Seq<char>, pwd: Seq<u8>) -> Option<bool>;

/// The error type of the `argon2` crate.
#[verifier::external_type_specification]
#[verifier::external_body]
pub struct ExArgonLibError(ArgonLibError);

/// Turns an error of the `argon2` crate into the library's description of it:
/// its variant, and the text of its `Display`. The conversion that the
/// hashing and checking wrappers share; what their results are is stated
/// on them.
#[verifier::external_body]
fn argon2_error(e: ArgonLibError) -> Argon2Error {
    let kind = match e {
        ArgonLibError::OutputTooShort => Kind::OutputTooShort, ArgonLibError::OutputTooLong => Kind::OutputTooLong,
        ArgonLibError::PwdTooShort => Kind::PwdTooShort, ArgonLibError::PwdTooLong => Kind::PwdTooLong,
        ArgonLibError::SaltTooShort => Kind::SaltTooShort, ArgonLibError::SaltTooLong => Kind::SaltTooLong,
        ArgonLibError::AdTooShort => Kind::AdTooShort, ArgonLibError::AdTooLong => Kind::AdTooLong,
        ArgonLibError::SecretTooShort => Kind::SecretTooShort, ArgonLibError::SecretTooLong => Kind::SecretTooLong,
        ArgonLibError::TimeTooSmall => Kind::TimeTooSmall, ArgonLibError::TimeTooLarge => Kind::TimeTooLarge,
        ArgonLibError::MemoryTooLittle => Kind::MemoryTooLittle, ArgonLibError::MemoryTooMuch => Kind::MemoryTooMuch,
        ArgonLibError::LanesTooFew => Kind::LanesTooFew, ArgonLibError::LanesTooMany => Kind::LanesTooMany,
        ArgonLibError::IncorrectType => Kind::IncorrectType, ArgonLibError::IncorrectVersion => Kind::IncorrectVersion,
        ArgonLibError::DecodingFail => Kind::DecodingFail,
    };
    Argon2Error { kind, text: e.to_string() }
}

/// The name that an encoded hash gives its variant.
pub open spec fn variant_name(variant: HashVariant) -> Seq<char> {
    match variant {
        HashVariant::Argon2d => "argon2d"@,
        HashVariant::Argon2i => "argon2i"@,
        HashVariant::Argon2id => "argon2id"@,
    }
}

/// How an encoded hash made with the crate's default parameters begins:
/// the variant, version 19 (0x13), 19456 KiB of memory, two passes and one
/// lane, before the salt and the hash.
pub open spec fn encoded_prefix(variant: HashVariant) -> Seq<char> {
    "$"@ + variant_name(variant) + "$v=19$m=19456,t=2,p=1$"@
}

/// Whether a string has the outline that the `argon2` crate decodes: it
/// begins with `$` and splits at `$` into six fields (or five, without a
/// version field).
pub open spec fn encoded_outline(encoded: Seq<char>) -> bool {
    &&& encoded.len() > 0
    &&& encoded[0] == '$'
    &&& (count_char(encoded, '$') == 5 || count_char(encoded, '$') == 4)
}

/// `argon2::hash_encoded(pwd, salt, &config)`, where `config` is
/// `argon2::Config::default()` with its variant set to `variant`.
///
/// The default configuration (one lane, 19 MiB, two passes, no secret, no
/// associated data, 32-byte output) passes every check of
/// `argon2::Context::new`, so the crate refuses the input only for the
/// password's or the salt's length, checked in that order: a password over
/// `u32::MAX` bytes (`PwdTooLong`), a salt under 8 bytes (`SaltTooShort`) or
/// over `u32::MAX` bytes (`SaltTooLong`); the texts are those of the crate's
/// `Display`. Otherwise the result is the encoded hash, a function of the
/// three arguments alone, written by `encode_string` as
/// `$variant$v=19$m=..,t=..,p=..$salt$hash`. `argon2::verify_encoded`
/// decodes it back to the same variant, version, costs, salt and hash, so it
/// answers (without error) for every password of at most `u32::MAX` bytes,
/// and accepts the password the hash was made from, since hashing it again
/// reproduces the hash. The string records the salt in its fifth
/// `$`-separated field, in unpadded base64 (which no two salts share and
/// which holds no `$`), so no hash made with another salt, of any password,
/// equals it.
#[verifier::external_body]
fn argon2_hash_encoded(pwd: &[u8], salt: &[u8], variant: HashVariant) -> (res: Result<String, Argon2Error>)
    ensures
        match res {
            Ok(h) => {
                &&& pwd@.len() <= u32::MAX
                &&& 8 <= salt@.len() <= u32::MAX
                &&& h@ == argon2_encoded_hash(pwd@, salt@, variant)
                &&& encoded_prefix(variant).len() <= h@.len()
                &&& h@.subrange(0, encoded_prefix(variant).len() as int) == encoded_prefix(variant)
                &&& argon2_verify(h@, pwd@) == Some(true)
                &&& forall|q: Seq<u8>| q.len() <= u32::MAX ==> (#[trigger] argon2_verify(h@, q)) is Some
                &&& forall|q: Seq<u8>, s: Seq<u8>|
                    q.len() <= u32::MAX && 8 <= s.len() <= u32::MAX && s != salt@
                        ==> #[trigger] argon2_encoded_hash(q, s, variant) != h@
            },
            Err(e) => if pwd@.len() > u32::MAX {
                e.kind == Argon2ErrorKind::PwdTooLong && e.text@ == "Password is too long"@
            } else if salt@.len() < 8 {
                e.kind == Argon2ErrorKind::SaltTooShort && e.text@ == "Salt is too short"@
            } else {
                salt@.len() > u32::MAX && e.kind == Argon2ErrorKind::SaltTooLong
                    && e.text@ == "Salt is too long"@
            },
        },
{
    let mut config = argon2::Config::default();
    config.variant = match variant {
        HashVariant::Argon2d => argon2::Variant::Argon2d,
        HashVariant::Argon2i => argon2::Variant::Argon2i,
        HashVariant::Argon2id => argon2::Variant::Argon2id,
    };
    argon2::hash_encoded(pwd, salt, &config).map_err(argon2_error)
}

/// `argon2::verify_encoded(encoded, pwd)`: whether `pwd` hashes, with the
/// parameters and salt that `encoded` records, to the hash it records.
///
/// The result is `argon2_verify` of the two arguments: `Ok(b)` where that
/// is `Some(b)`, an error where it is `None`. `decode_string` splits the
/// string at `$` and refuses, with `DecodingFail`, anything that does not
/// give six or five fields with an empty first one, that is every string
/// without the outline of `encoded_outline`. Left unsaid: which error comes
/// for other malformed strings, and that the crate allocates the memory cost
/// and, with its default `crossbeam-utils` feature, spawns the lane count
/// that an encoded string records, which for hostile strings can exhaust the
/// machine.
#[verifier::external_body]
fn argon2_verify_encoded(encoded: &str, pwd: &[u8]) -> (res: Result<bool, Argon2Error>)
    ensures
        res matches Ok(b) ==> argon2_verify(encoded@, pwd@) == Some(b),
        res is Err ==> argon2_verify(encoded@, pwd@) is None,
        res is Ok ==> encoded_outline(encoded@),
        res matches Err(e) ==> (!encoded_outline(encoded@) ==> e.kind == Argon2ErrorKind::DecodingFail
            && e.text@ == "Decoding failed"@),
{
    argon2::verify_encoded(encoded, pwd).map_err(argon2_error)
}

/// The variant that stored passwords are hashed with.
pub open spec fn spec_password_variant() -> HashVariant {
    HashVariant::Argon2id
}

/// The variant that stored passwords are hashed with: Argon2id.
#[verifier::when_used_as_spec(spec_password_variant)]
pub fn password_variant() -> (v: HashVariant)
    ensures
        v == spec_password_variant(),
{
    HashVariant::Argon2id
}

/// Whether Argon2 with the default parameters accepts a password and a salt
/// of these byte lengths.
pub open spec fn hash_input_accepted(pwd_len: nat, salt_len: nat) -> bool {
    pwd_len <= u32::MAX && 8 <= salt_len <= u32::MAX
}

/// The error that Argon2 with the default parameters gives for a password and
/// a salt of these byte lengths, where it refuses them.
pub open spec fn hash_input_error(pwd_len: nat, salt_len: nat) -> Argon2ErrorKind {
    if pwd_len > u32::MAX {
        Argon2ErrorKind::PwdTooLong
    } else if salt_len < 8 {
        Argon2ErrorKind::SaltTooShort
    } else {
        Argon2ErrorKind::SaltTooLong
    }
}

/// The text that the `argon2` crate displays for the error that
/// `hash_input_error` gives.
pub open spec fn hash_input_error_text(pwd_len: nat, salt_len: nat) -> Seq<char> {
    if pwd_len > u32::MAX {
        "Password is too long"@
    } else if salt_len < 8 {
        "Salt is too short"@
    } else {
        "Salt is too long"@
    }
}

/// The stored form of a password: its Argon2id encoded hash with `salt`.
pub open spec fn spec_password_hash(plain: Seq<char>, salt: Seq<u8>) -> Seq<char> {
    argon2_encoded_hash(vstd::utf8::encode_utf8(plain), salt, spec_password_variant())
}

/// Whether `plain` is accepted for the stored hash `encoded`; `None` where
/// the stored string is not a hash that Argon2 can check against.
pub open spec fn spec_password_matches(encoded: Seq<char>, plain: Seq<char>) -> Option<bool> {
    argon2_verify(encoded, vstd::utf8::encode_utf8(plain))
}

/// How a stored password hash begins: `$argon2id$v=19$m=19456,t=2,p=1$`.
pub open spec fn password_hash_prefix() -> Seq<char> {
    encoded_prefix(spec_password_variant())
}

/// What holds of `h`, the stored form of password `plain` with `salt`: it is
/// `spec_password_hash(plain, salt)`, it begins with `password_hash_prefix()`,
/// checking `plain` against it succeeds, checking any password of at most
/// `u32::MAX` bytes against it gives an answer rather than an error, and no
/// password hashed with another usable salt has the same stored form.
pub open spec fn is_stored_hash_of(h: Seq<char>, plain: Seq<char>, salt: Seq<u8>) -> bool {
    &&& h == spec_password_hash(plain, salt)
    &&& password_hash_prefix().len() <= h.len()
    &&& h.subrange(0, password_hash_prefix().len() as int) == password_hash_prefix()
    &&& spec_password_matches(h, plain) == Some(true)
    &&& forall|q: Seq<char>| vstd::utf8::encode_utf8(q).len() <= u32::MAX
        ==> (#[trigger] spec_password_matches(h, q)) is Some
    &&& forall|q: Seq<char>, s: Seq<u8>|
        vstd::utf8::encode_utf8(q).len() <= u32::MAX && 8 <= s.len() <= u32::MAX && s != salt
            ==> #[trigger] spec_password_hash(q, s) != h
}

/// Hashes a password for storage: Argon2id over its UTF-8 bytes with `salt`.
///
/// Fails exactly where Argon2 refuses the lengths (see `hash_input_error`);
/// otherwise the hash is the stored form of the password (see
/// `is_stored_hash_of`). Equal arguments give equal hashes: no salt is drawn.
pub fn hash_password_inner(plain: &str, salt: &[u8]) -> (res: Result<String, Argon2Error>)
    ensures
        res is Ok <==> hash_input_accepted(vstd::utf8::encode_utf8(plain@).len(), salt@.len()),
        res matches Ok(h) ==> is_stored_hash_of(h@, plain@, salt@),
        res matches Err(e) ==> e.kind == hash_input_error(vstd::utf8::encode_utf8(plain@).len(), salt@.len())
            && e.text@ == hash_input_error_text(vstd::utf8::encode_utf8(plain@).len(), salt@.len()),
{
    argon2_hash_encoded(plain.as_bytes(), salt, password_variant())
}

/// Checks a password against a stored hash.
///
/// `Ok(b)` where `spec_password_matches(encoded, plain)` is `Some(b)`, the
/// crate's error where it is `None`; a stored string without the outline of
/// an encoded hash (the empty string among them) is refused with
/// `DecodingFail` for every password.
pub fn verify_password(encoded: &str, plain: &str) -> (res: Result<bool, Argon2Error>)
    ensures
        match res {
            Ok(b) => spec_password_matches(encoded@, plain@) == Some(b),
            Err(_) => spec_password_matches(encoded@, plain@) is None,
        },
        !encoded_outline(encoded@) ==> (res matches Err(e) && e.kind == Argon2ErrorKind::DecodingFail),
{
    argon2_verify_encoded(encoded, plain.as_bytes())
}

} // verus!
