use vstd::prelude::*;
use vstd::string::*;

use crate::text::{
    contains_char, ends_with, ends_with_str, find_first, find_last, first_index_of, has_char,
    last_index_of, pascal_of, to_pascal, trim_end, trim_end_char,
};

verus! {

/// The class name that a raw object path names: the Pascal-cased text after
/// its last `.`, without trailing quotes. A text without `/` is kept.
pub open spec fn class_reference_of(raw: Seq<char>) -> Seq<char> {
    if has_char(raw, '/') {
        match last_index_of(raw, '.') {
            Some(i) => trim_end(trim_end(pascal_of(raw.subrange(i + 1, raw.len() as int)), '\''), '"'),
            None => raw,
        }
    } else {
        raw
    }
}

/// The canonical `<base>_256` icon id of a raw icon path, or none where the
/// path has no `.<name>` tail or the name no `_<size>` suffix.
pub open spec fn icon_path_of(raw: Seq<char>) -> Option<Seq<char>> {
    if !has_char(raw, '/') && ends_with(raw, seq!['2', '5', '6']) {
        Some(raw)
    } else {
        let t = trim_end(raw, '_');
        match last_index_of(t, '.') {
            None => None,
            Some(i) => {
                let name = trim_end(t.subrange(i + 1, t.len() as int), '_');
                match last_index_of(name, '_') {
                    None => None,
                    Some(j) => Some(name.take(j) + seq!['_', '2', '5', '6']),
                }
            },
        }
    }
}

/// The `(asset_type, asset_path)` split of a raw `"TYPE PATH"` reference, at
/// its first space; `("UNKNOWN", raw)` where there is none.
pub open spec fn asset_reference_of(raw: Seq<char>) -> (Seq<char>, Seq<char>) {
    match first_index_of(raw, ' ') {
        Some(i) => (raw.take(i), raw.subrange(i + 1, raw.len() as int)),
        None => (seq!['U', 'N', 'K', 'N', 'O', 'W', 'N'], raw),
    }
}

/// An icon resource id in its canonical `<base>_256` form, or nothing.
#[derive(Debug, PartialEq)]
pub struct IconPath(Option<String>);

/// A text in Pascal case, so that names compare equal across spacing and
/// casing variants.
#[derive(Debug, PartialEq)]
pub struct NormalizedString(String);

/// A bare class name taken out of a qualified object path.
#[derive(Debug, PartialEq)]
pub struct ClassReference(String);

/// A typed asset reference, `"TYPE PATH"` split in two.
#[derive(Debug, PartialEq)]
pub struct AssetReference {
    pub asset_type: String,
    pub asset_path: String,
}

impl View for IconPath {
    type V = Option<Seq<char>>;

    closed spec fn view(&self) -> Option<Seq<char>> {
        match self.0 {
            Some(s) => Some(s@),
            None => None,
        }
    }
}

impl View for NormalizedString {
    type V = Seq<char>;

    closed spec fn view(&self) -> Seq<char> {
        self.0@
    }
}

impl View for ClassReference {
    type V = Seq<char>;

    closed spec fn view(&self) -> Seq<char> {
        self.0@
    }
}

impl View for AssetReference {
    type V = (Seq<char>, Seq<char>);

    open spec fn view(&self) -> (Seq<char>, Seq<char>) {
        (self.asset_type@, self.asset_path@)
    }
}

impl Clone for IconPath {
    fn clone(&self) -> (r: Self)
        ensures
            r@ == self@,
    {
        match &self.0 {
            Some(s) => IconPath(Some(s.clone())),
            None => IconPath(None),
        }
    }
}

impl Clone for NormalizedString {
    fn clone(&self) -> (r: Self)
        ensures
            r@ == self@,
    {
        NormalizedString(self.0.clone())
    }
}

impl Clone for ClassReference {
    fn clone(&self) -> (r: Self)
        ensures
            r@ == self@,
    {
        ClassReference(self.0.clone())
    }
}

impl Clone for AssetReference {
    fn clone(&self) -> (r: Self)
        ensures
            r@ == self@,
    {
        AssetReference { asset_type: self.asset_type.clone(), asset_path: self.asset_path.clone() }
    }
}

impl IconPath {
    pub fn from_raw(raw: &str) -> (r: Self)
        ensures
            r@ == icon_path_of(raw@),
    {
        proof {
            reveal_strlit("256");
            assert("256"@ =~= seq!['2', '5', '6']);
        }
        if !contains_char(raw, '/') && ends_with_str(raw, "256") {
            return IconPath(Some(String::from_str(raw)));
        }
        let t = trim_end_char(raw, '_');
        let n = t.unicode_len();
        match find_last(t, '.') {
            None => IconPath(None),
            Some(i) => {
                let tail = t.substring_char(i + 1, n);
                let name = trim_end_char(tail, '_');
                match find_last(name, '_') {
                    None => IconPath(None),
                    Some(j) => {
                        let mut id = String::from_str(name.substring_char(0, j));
                        id.append("_256");
                        proof {
                            reveal_strlit("_256");
                            assert("_256"@ =~= seq!['_', '2', '5', '6']);
                            assert(name@.subrange(0, j as int) =~= name@.take(j as int));
                        }
                        IconPath(Some(id))
                    },
                }
            },
        }
    }

    pub fn as_option(&self) -> (r: Option<&String>)
        ensures
            match r {
                Some(s) => self@ == Some(s@),
                None => self@ is None,
            },
    {
        match &self.0 {
            Some(s) => Some(s),
            None => None,
        }
    }

    /// The id, or an empty text where there is none.
    pub fn into_string(self) -> (r: String)
        ensures
            r@ == (match self@ {
                Some(s) => s,
                None => Seq::<char>::empty(),
            }),
    {
        match self.0 {
            Some(s) => s,
            None => String::new(),
        }
    }

    pub fn as_str(&self) -> (r: &str)
        ensures
            r@ == (match self@ {
                Some(s) => s,
                None => Seq::<char>::empty(),
            }),
    {
        match &self.0 {
            Some(s) => s.as_str(),
            None => {
                proof {
                    reveal_strlit("");
                }
                ""
            },
        }
    }
}

impl NormalizedString {
    pub fn from_raw(raw: &str) -> (r: Self)
        ensures
            r@ == pascal_of(raw@),
    {
        NormalizedString(to_pascal(raw))
    }

    pub fn into_string(self) -> (r: String)
        ensures
            r@ == self@,
    {
        self.0
    }

    pub fn as_str(&self) -> (r: &str)
        ensures
            r@ == self@,
    {
        self.0.as_str()
    }
}

impl ClassReference {
    pub fn from_raw(raw: &str) -> (r: Self)
        ensures
            r@ == class_reference_of(raw@),
    {
        if contains_char(raw, '/') {
            let n = raw.unicode_len();
            match find_last(raw, '.') {
                Some(i) => {
                    let tail = raw.substring_char(i + 1, n);
                    let pascal = to_pascal(tail);
                    let unquoted = trim_end_char(pascal.as_str(), '\'');
                    let name = trim_end_char(unquoted, '"');
                    ClassReference(String::from_str(name))
                },
                None => ClassReference(String::from_str(raw)),
            }
        } else {
            ClassReference(String::from_str(raw))
        }
    }

    pub fn into_string(self) -> (r: String)
        ensures
            r@ == self@,
    {
        self.0
    }

    pub fn as_str(&self) -> (r: &str)
        ensures
            r@ == self@,
    {
        self.0.as_str()
    }
}

impl AssetReference {
    pub fn from_raw(raw: &str) -> (r: Self)
        ensures
            r@ == asset_reference_of(raw@),
    {
        let n = raw.unicode_len();
        match find_first(raw, ' ') {
            Some(i) => {
                let kind = raw.substring_char(0, i);
                let path = raw.substring_char(i + 1, n);
                proof {
                    assert(raw@.subrange(0, i as int) =~= raw@.take(i as int));
                }
                AssetReference { asset_type: String::from_str(kind), asset_path: String::from_str(path) }
            },
            None => {
                proof {
                    reveal_strlit("UNKNOWN");
                    assert("UNKNOWN"@ =~= seq!['U', 'N', 'K', 'N', 'O', 'W', 'N']);
                }
                AssetReference { asset_type: String::from_str("UNKNOWN"), asset_path: String::from_str(raw) }
            },
        }
    }
}

} // verus!
