use vstd::prelude::*;

use crate::level::Level;

verus! {

/// The lowercase hex form of the public key that `text` denotes (bech32
/// `npub`/`nprofile`, a `nostr:` URI, or hex), or `None` when it denotes none.
pub uninterp spec fn parsed_public_key(text: Seq<char>) -> Option<Seq<char>>;

/// Relies on nostr's `PublicKey::parse`, which accepts a bech32 key or
/// profile, a `nostr:` URI or 64 hex digits, and on `PublicKey::to_hex`,
/// which writes the key's 32 bytes as 64 hex digits. On failure the
/// parser's error text is returned.
#[verifier::external_body]
pub(crate) fn parse_public_key(text: &str) -> (r: Result<String, String>)
    ensures
        r is Ok <==> parsed_public_key(text@) is Some,
        r is Ok ==> parsed_public_key(text@) == Some(r->Ok_0@),
        r is Ok ==> r->Ok_0@.len() == 64,
{
    match nostr::key::PublicKey::parse(text) {
        Ok(key) => Ok(key.to_hex()),
        Err(e) => Err(e.to_string()),
    }
}

/// The lowercase mapping of a text.
pub uninterp spec fn lowercase_of(text: Seq<char>) -> Seq<char>;

/// Relies on `str::to_lowercase`: the result depends on the characters alone.
#[verifier::external_body]
pub(crate) fn to_lowercase(text: &str) -> (r: String)
    ensures
        r@ == lowercase_of(text@),
{
    text.to_lowercase()
}

/// Whether two texts are the same.
fn same_text(a: &str, b: &str) -> (r: bool)
    ensures
        r == (a@ == b@),
{
    a.to_owned() == b.to_owned()
}

/// The level with this lowercase name, if any.
pub open spec fn level_named(name: Seq<char>) -> Option<Level> {
    if name == "debug"@ {
        Some(Level::Debug)
    } else if name == "info"@ {
        Some(Level::Info)
    } else if name == "warning"@ {
        Some(Level::Warning)
    } else if name == "error"@ {
        Some(Level::Error)
    } else if name == "fatal"@ {
        Some(Level::Fatal)
    } else {
        None
    }
}

/// The level named by an already lowercased name (`debug`, `info`,
/// `warning`, `error`, `fatal`), or the error `Invalid level`.
pub fn level_from_lowercase(name: &str) -> (r: Result<Level, String>)
    ensures
        r is Ok <==> level_named(name@) is Some,
        r is Ok ==> level_named(name@) == Some(r->Ok_0),
        r is Err ==> r->Err_0@ == "Invalid level"@,
{
    if same_text(name, "debug") {
        Ok(Level::Debug)
    } else if same_text(name, "info") {
        Ok(Level::Info)
    } else if same_text(name, "warning") {
        Ok(Level::Warning)
    } else if same_text(name, "error") {
        Ok(Level::Error)
    } else if same_text(name, "fatal") {
        Ok(Level::Fatal)
    } else {
        Err(String::from_str("Invalid level"))
    }
}

/// The level named by `text`, letter case ignored, or the error `Invalid level`.
pub fn parse_level(text: &str) -> (r: Result<Level, String>)
    ensures
        r is Ok <==> level_named(lowercase_of(text@)) is Some,
        r is Ok ==> level_named(lowercase_of(text@)) == Some(r->Ok_0),
        r is Err ==> r->Err_0@ == "Invalid level"@,
{
    let lowered = to_lowercase(text);
    level_from_lowercase(lowered.as_str())
}

/// Splits `key=value` at the first `=`: the key holds no `=`, the value
/// may. Text without `=` is an error that quotes it.
pub fn parse_tag(s: &str) -> (r: Result<(String, String), String>)
    ensures
        match r {
            Ok((key, value)) => {
                &&& s@ == key@ + seq!['='] + value@
                &&& forall|j: int| 0 <= j < key@.len() ==> key@[j] != '='
            },
            Err(e) => {
                &&& forall|j: int| 0 <= j < s@.len() ==> s@[j] != '='
                &&& e@ == "Invalid tag format '"@ + s@ + "'. Expected 'key=value'"@
            },
        },
{
    let n = s.unicode_len();
    let mut i: usize = 0;
    while i < n
        invariant
            n == s@.len(),
            i <= n,
            forall|j: int| 0 <= j < i ==> s@[j] != '=',
        decreases n - i,
    {
        if s.get_char(i) == '=' {
            let key = s.substring_char(0, i).to_owned();
            let value = s.substring_char(i + 1, n).to_owned();
            proof {
                assert(s@ =~= key@ + seq!['='] + value@);
            }
            return Ok((key, value));
        }
        i = i + 1;
    }
    let e = String::from_str("Invalid tag format '").concat(s).concat("'. Expected 'key=value'");
    Err(e)
}

} // verus!
