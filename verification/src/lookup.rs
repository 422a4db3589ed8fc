//! Looking a key up in a parsed key-value document: the common shape of
//! what the TOML and the JSON parser are asked for.

use vstd::prelude::*;

verus! {

/// The texts of a parsed key-value document, by key; `None` stands for a
/// text that is no such document.
pub type Texts = Option<Map<Seq<char>, Seq<char>>>;

/// What looking up `name` in a parsed document gives: nothing at all when
/// there is no document, else the text under `name`, if there is one.
pub open spec fn text_lookup(texts: Texts, name: Seq<char>) -> Option<Option<Seq<char>>> {
    match texts {
        None => None,
        Some(entries) => Some(
            if entries.contains_key(name) {
                Some(entries[name])
            } else {
                None
            },
        ),
    }
}

/// The view of a lookup as a parser reports it; what the error says is not
/// part of it.
pub open spec fn lookup_view(found: Result<Option<String>, String>) -> Option<
    Option<Seq<char>>,
> {
    match found {
        Ok(Some(s)) => Some(Some(s@)),
        Ok(None) => Some(None),
        Err(_) => None,
    }
}

} // verus!
