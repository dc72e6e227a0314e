use vstd::prelude::*;

use crate::text::same_text;

verus! {

/// A JSON number as the export holds it.
#[derive(Clone, Debug)]
pub enum RawNumber {
    Signed(i64),
    Unsigned(u64),
    /// A number with a fraction or an exponent, narrowed to single precision
    /// and held as its IEEE-754 bit pattern.
    Float(u32),
}

/// A node of the parsed export: a JSON value. A text keeps beside it how
/// Rust's `str::parse::<f32>` reads it (the bit pattern of the result), which
/// the scalar coercion rules depend on.
#[derive(Debug)]
pub enum RawValue {
    Null,
    Bool(bool),
    Number(RawNumber),
    Text { text: String, reading: Option<u32> },
    Array(Vec<RawValue>),
    /// The members in document order; keys are distinct.
    Object(Vec<(String, RawValue)>),
}

/// The value of the first member named `key`.
pub open spec fn member_of(members: Seq<(String, RawValue)>, key: Seq<char>) -> Option<RawValue>
    decreases members.len(),
{
    if members.len() == 0 {
        None
    } else if members[0].0@ == key {
        Some(members[0].1)
    } else {
        member_of(members.drop_first(), key)
    }
}

impl RawValue {
    /// The member `key` of an object; nothing for any other node.
    pub open spec fn spec_member(&self, key: Seq<char>) -> Option<RawValue> {
        match self {
            RawValue::Object(members) => member_of(members@, key),
            _ => None,
        }
    }

    /// The text of a text node.
    pub open spec fn spec_text(&self) -> Option<Seq<char>> {
        match self {
            RawValue::Text { text, .. } => Some(text@),
            _ => None,
        }
    }

    pub fn member(&self, key: &str) -> (r: Option<&RawValue>)
        ensures
            match r {
                Some(v) => self.spec_member(key@) == Some(*v),
                None => self.spec_member(key@) == None::<RawValue>,
            },
    {
        match self {
            RawValue::Object(members) => {
                let n = members.len();
                let mut i: usize = 0;
                assert(members@.skip(0) =~= members@);
                while i < n
                    invariant
                        n == members@.len(),
                        i <= n,
                        self.spec_member(key@) == member_of(members@, key@),
                        member_of(members@, key@) == member_of(members@.skip(i as int), key@),
                    decreases n - i,
                {
                    assert(members@.skip(i as int).drop_first() =~= members@.skip(i + 1));
                    assert(members@.skip(i as int)[0] == members@[i as int]);
                    if same_text(members[i].0.as_str(), key) {
                        return Some(&members[i].1);
                    }
                    i = i + 1;
                }
                None
            },
            _ => None,
        }
    }

    pub fn text(&self) -> (r: Option<&String>)
        ensures
            match r {
                Some(t) => self.spec_text() == Some(t@),
                None => self.spec_text() == None::<Seq<char>>,
            },
    {
        match self {
            RawValue::Text { text, .. } => Some(text),
            _ => None,
        }
    }
}

} // verus!
