//! Sender authentication: the SHA-256 digest of the presented secret must
//! contain the credential hash stored for the claimed sender identity.
//! The registry scan stops at the first entry whose identity matches.

use vstd::prelude::*;

use crate::error::ErrorModel;
use crate::error::MailError;
use crate::hashing::digest_model;
use crate::hashing::sha256_hex;
use crate::strutil::ascii_lower_str;
use crate::strutil::contains_seq;
use crate::strutil::find_sub;
use crate::strutil::lemma_find_sub_contains;
use crate::strutil::lower_seq;

verus! {

/// The credential hash stored for `identity`: the second component of the
/// first registry entry whose first component equals `identity`.
pub open spec fn lookup_hash(reg: Seq<(Seq<char>, Seq<char>)>, identity: Seq<char>) -> Option<
    Seq<char>,
>
    decreases reg.len(),
{
    if reg.len() == 0 {
        None
    } else if reg.first().0 == identity {
        Some(reg.first().1)
    } else {
        lookup_hash(reg.drop_first(), identity)
    }
}

/// The sender identity a request claims: the (again) ASCII-lowercased `from`
/// field, or the empty string when `from` is absent.
pub open spec fn claimed_identity(from: Option<Seq<char>>) -> Seq<char> {
    match from {
        Some(f) => lower_seq(f),
        None => Seq::empty(),
    }
}

/// The authentication decision. With no `api-key` header the request fails
/// with `MissingApiKey`; otherwise the digest of the presented secret must
/// contain the hash stored for the claimed identity as a substring, and any
/// miss fails with `Unauthorized` carrying the computed digest.
///
/// Note that the check is containment, not equality: a stored value that is
/// merely a substring of the digest (an empty string, say) authorizes too.
/// Deployments that want strict matching must store full 64-character
/// digests, which makes containment and equality coincide.
pub open spec fn auth_model(
    api_key: Option<Seq<char>>,
    from: Option<Seq<char>>,
    reg: Seq<(Seq<char>, Seq<char>)>,
) -> Result<(), ErrorModel> {
    match api_key {
        None => Err(ErrorModel::MissingApiKey),
        Some(k) => {
            let digest = digest_model(k);
            match lookup_hash(reg, claimed_identity(from)) {
                Some(h) => if contains_seq(digest, h) {
                    Ok(())
                } else {
                    Err(ErrorModel::Unauthorized(digest))
                },
                None => Err(ErrorModel::Unauthorized(digest)),
            }
        },
    }
}

/// Find the stored credential hash of the first entry matching `identity`.
fn lookup(registry: &Vec<(String, String)>, identity: &String) -> (r: Option<String>)
    ensures
        match r {
            Some(h) => lookup_hash(registry.deep_view(), identity@) == Some(h@),
            None => lookup_hash(registry.deep_view(), identity@) is None,
        },
{
    let ghost reg = registry.deep_view();
    proof {
        assert(reg.skip(0) =~= reg);
    }
    let mut i: usize = 0;
    while i < registry.len()
        invariant
            i <= reg.len(),
            reg.len() == registry@.len(),
            reg == registry.deep_view(),
            lookup_hash(reg, identity@) == lookup_hash(reg.skip(i as int), identity@),
        decreases reg.len() - i,
    {
        proof {
            assert(reg[i as int] == (registry@[i as int].0@, registry@[i as int].1@));
            assert(reg.skip(i as int).first() == reg[i as int]);
            assert(reg.skip(i as int).drop_first() =~= reg.skip(i + 1));
        }
        if crate::strutil::str_eq(registry[i].0.as_str(), identity.as_str()) {
            return Some(registry[i].1.clone());
        }
        i += 1;
    }
    proof {
        assert(reg.skip(reg.len() as int) =~= Seq::<(Seq<char>, Seq<char>)>::empty());
    }
    None
}

/// Decide whether the request may send as the claimed sender.
pub fn authenticate(
    api_key: &Option<String>,
    from: &Option<String>,
    registry: &Vec<(String, String)>,
) -> (r: Result<(), MailError>)
    ensures
        match r {
            Ok(()) => auth_model(api_key.deep_view(), from.deep_view(), registry.deep_view())
                is Ok,
            Err(e) => auth_model(api_key.deep_view(), from.deep_view(), registry.deep_view())
                == Err::<(), ErrorModel>(e@),
        },
{
    let key = match api_key {
        Some(k) => k,
        None => {
            return Err(MailError::MissingApiKey);
        },
    };
    let digest = sha256_hex(key.as_str());
    let identity = match from {
        Some(f) => ascii_lower_str(f.as_str()),
        None => String::new(),
    };
    proof {
        assert(identity@ == claimed_identity(from.deep_view()));
    }
    match lookup(registry, &identity) {
        Some(stored) => {
            let found = find_sub(digest.as_str(), stored.as_str());
            proof {
                lemma_find_sub_contains(digest@, stored@);
            }
            if found.is_some() {
                Ok(())
            } else {
                Err(MailError::Unauthorized(digest))
            }
        },
        None => Err(MailError::Unauthorized(digest)),
    }
}

} // verus!
