use vstd::prelude::*;
use vstd::string::{StrSliceExecFns, StringExecFns};

verus! {

/// The model used for chat requests until another is chosen.
pub fn default_model() -> (r: String)
    ensures
        r@ == "gemini-2.5-pro"@,
{
    String::from_str("gemini-2.5-pro")
}

/// A character with the Unicode White_Space property.
pub open spec fn is_white(c: char) -> bool {
    ('\u{9}' <= c <= '\u{d}') || c == ' ' || c == '\u{85}' || c == '\u{a0}' || c == '\u{1680}'
        || ('\u{2000}' <= c <= '\u{200a}') || c == '\u{2028}' || c == '\u{2029}' || c
        == '\u{202f}' || c == '\u{205f}' || c == '\u{3000}'
}

/// A string made of whitespace only (the empty string included).
pub open spec fn is_blank(s: Seq<char>) -> bool {
    forall|k: int| 0 <= k < s.len() ==> is_white(#[trigger] s[k])
}

/// `r` is `s` with the whitespace before `i` and from `j` on removed, and no
/// whitespace left at either end.
pub open spec fn is_trim(s: Seq<char>, r: Seq<char>, i: int, j: int) -> bool {
    &&& 0 <= i <= j <= s.len()
    &&& r == s.subrange(i, j)
    &&& forall|k: int| 0 <= k < i ==> is_white(#[trigger] s[k])
    &&& forall|k: int| j <= k < s.len() ==> is_white(#[trigger] s[k])
    &&& r.len() > 0 ==> !is_white(r[0]) && !is_white(r[r.len() - 1])
}

/// Relies on `str::trim`: it removes the leading and trailing characters that
/// have the Unicode White_Space property and keeps what lies between.
#[verifier::external_body]
fn trimmed(s: &str) -> (r: &str)
    ensures
        exists|i: int, j: int| is_trim(s@, r@, i, j),
{
    s.trim()
}

/// The runtime settings: the chat model, and the credentials of the primary and
/// secondary providers.
#[derive(Clone, Debug)]
pub struct RuntimeConfig {
    pub model: String,
    pub primary_key: Option<String>,
    pub secondary_key: Option<String>,
}

impl RuntimeConfig {
    /// Settings with the given model and credentials.
    pub fn new(model: String, primary_key: Option<String>, secondary_key: Option<String>) -> (c:
        RuntimeConfig)
        ensures
            c.model == model,
            c.primary_key == primary_key,
            c.secondary_key == secondary_key,
    {
        RuntimeConfig { model, primary_key, secondary_key }
    }

    /// Stores the primary credential; one that is blank once trimmed clears it.
    pub fn set_gemini_api_key(&mut self, key: String)
        ensures
            final(self).model == old(self).model,
            final(self).secondary_key == old(self).secondary_key,
            is_blank(key@) ==> final(self).primary_key is None,
            !is_blank(key@) ==> final(self).primary_key == Some(key),
    {
        let t = trimmed(key.as_str());
        let blank = t.unicode_len() == 0;
        proof {
            let (i, j) = choose|i: int, j: int| is_trim(key@, t@, i, j);
            if blank {
                assert forall|k: int| 0 <= k < key@.len() implies is_white(#[trigger] key@[k]) by {
                    if k >= i {
                        assert(k >= j);
                    }
                }
            } else {
                assert(t@[0] == key@[i]);
            }
        }
        self.primary_key = if blank {
            None
        } else {
            Some(key)
        };
    }

    /// The primary credential, if one is set.
    pub fn get_gemini_api_key(&self) -> (r: Option<String>)
        ensures
            r == self.primary_key,
    {
        self.primary_key.clone()
    }

    /// Chooses the chat model and hands its name back.
    pub fn set_model(&mut self, model: String) -> (r: String)
        ensures
            final(self).model == model,
            r@ == model@,
            final(self).primary_key == old(self).primary_key,
            final(self).secondary_key == old(self).secondary_key,
    {
        let r = model.clone();
        self.model = model;
        r
    }

    /// Stores the secondary credential; an empty one clears it.
    pub fn set_hf_token(&mut self, token: String)
        ensures
            final(self).model == old(self).model,
            final(self).primary_key == old(self).primary_key,
            token@.len() == 0 ==> final(self).secondary_key is None,
            token@.len() != 0 ==> final(self).secondary_key == Some(token),
    {
        self.secondary_key = if token.as_str().unicode_len() == 0 {
            None
        } else {
            Some(token)
        };
    }

    /// The secondary credential, if one is set.
    pub fn get_hf_token(&self) -> (r: Option<String>)
        ensures
            r == self.secondary_key,
    {
        self.secondary_key.clone()
    }
}

} // verus!
