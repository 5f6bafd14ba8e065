//! Loading one credential-registry entry from an `EMAIL=HASH` argument: the
//! key is trimmed, lowercased and must look like an email, the value must be
//! a 64-digit hexadecimal SHA-256 digest.

use vstd::prelude::*;

use crate::strutil::contains_char;
use crate::strutil::find_char;
use crate::strutil::find_char_spec;
use crate::strutil::lemma_find_char_contains;
use crate::strutil::lemma_find_char_from;

verus! {

/// What `str::trim` returns: the input without leading and trailing
/// whitespace; a function of the characters alone.
pub uninterp spec fn trim_of(s: Seq<char>) -> Seq<char>;

/// Relies on `str::trim`: removes leading and trailing whitespace, depending
/// on the characters alone.
#[verifier::external_body]
fn trim_str(s: &str) -> (r: String)
    ensures
        r@ == trim_of(s@),
{
    s.trim().to_owned()
}

/// What `str::to_lowercase` returns: the Unicode lowercase of the input; a
/// function of the characters alone.
pub uninterp spec fn lower_of(s: Seq<char>) -> Seq<char>;

/// Relies on `str::to_lowercase`: the Unicode lowercase equivalent, depending
/// on the characters alone.
#[verifier::external_body]
fn lowercase_str(s: &str) -> (r: String)
    ensures
        r@ == lower_of(s@),
{
    s.to_lowercase()
}

/// A hexadecimal digit, as `char::is_ascii_hexdigit` accepts it.
pub open spec fn is_hex_digit(c: char) -> bool {
    ('0' <= c && c <= '9') || ('a' <= c && c <= 'f') || ('A' <= c && c <= 'F')
}

/// Every character is a hexadecimal digit.
pub open spec fn all_hex(s: Seq<char>) -> bool {
    forall|i: int| 0 <= i < s.len() ==> is_hex_digit(s[i])
}

fn all_hex_exec(s: &str) -> (r: bool)
    ensures
        r == all_hex(s@),
{
    let n = s.unicode_len();
    let mut i: usize = 0;
    while i < n
        invariant
            n == s@.len(),
            i <= n,
            forall|j: int| 0 <= j < i ==> is_hex_digit(s@[j]),
        decreases n - i,
    {
        let c = s.get_char(i);
        if !(('0' <= c && c <= '9') || ('a' <= c && c <= 'f') || ('A' <= c && c <= 'F')) {
            return false;
        }
        i += 1;
    }
    true
}

/// What parsing one `EMAIL=HASH` argument yields: the trimmed, lowercased
/// key and the hash value — or the message describing the first thing wrong
/// with it.
pub open spec fn key_val_model(s: Seq<char>) -> Result<(Seq<char>, Seq<char>), Seq<char>> {
    match find_char_spec(s, '=') {
        None => Err("invalid user=KEY: no `=` found in `"@ + s + "`"@),
        Some(p) => {
            let key = lower_of(trim_of(s.subrange(0, p)));
            if !contains_char(key, '@') {
                Err("invalid key: `"@ + key + "` is not an email"@)
            } else {
                let value = s.subrange(p + 1, s.len() as int);
                if value.len() == 64 && all_hex(value) {
                    Ok((key, value))
                } else {
                    Err("invalid value: `"@ + value + "` is not a sha256 hash"@)
                }
            }
        },
    }
}

/// Parse one `EMAIL=HASH` registry argument.
pub fn parse_key_val(s: &str) -> (r: Result<(String, String), String>)
    ensures
        match r {
            Ok(kv) => key_val_model(s@) == Ok::<(Seq<char>, Seq<char>), Seq<char>>((
                kv.0@,
                kv.1@,
            )),
            Err(m) => key_val_model(s@) == Err::<(Seq<char>, Seq<char>), Seq<char>>(m@),
        },
{
    let n = s.unicode_len();
    let pos = match find_char(s, '=') {
        Some(p) => p,
        None => {
            let m = String::from_str("invalid user=KEY: no `=` found in `").concat(s).concat("`");
            proof {
                assert(m@ =~= "invalid user=KEY: no `=` found in `"@ + s@ + "`"@);
            }
            return Err(m);
        },
    };
    proof {
        lemma_find_char_from(s@, '=', 0);
    }
    let key_part = s.substring_char(0, pos);
    let trimmed = trim_str(key_part);
    let key = lowercase_str(trimmed.as_str());
    let has_at = find_char(key.as_str(), '@');
    proof {
        lemma_find_char_contains(key@, '@');
    }
    if has_at.is_none() {
        let m = String::from_str("invalid key: `").concat(key.as_str()).concat(
            "` is not an email",
        );
        proof {
            assert(m@ =~= "invalid key: `"@ + key@ + "` is not an email"@);
        }
        return Err(m);
    }
    let value = s.substring_char(pos + 1, n).to_owned();
    if value.as_str().unicode_len() == 64 && all_hex_exec(value.as_str()) {
        Ok((key, value))
    } else {
        let m = String::from_str("invalid value: `").concat(value.as_str()).concat(
            "` is not a sha256 hash",
        );
        proof {
            assert(m@ =~= "invalid value: `"@ + value@ + "` is not a sha256 hash"@);
        }
        Err(m)
    }
}

} // verus!
