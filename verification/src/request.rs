use vstd::prelude::*;

verus! {

/// What a handler can read from one member of a JSON request object.
pub enum JsonField {
    /// A JSON string.
    Text(String),
    /// A JSON number that fits in an `i64`.
    Integer(i64),
    /// Any other JSON value (a fraction, a bool, null, an array, an object).
    Other,
}

/// The members of a JSON request body, in document order. A body that is
/// not a JSON object has no members.
pub struct RequestBody {
    pub fields: Vec<(String, JsonField)>,
}

/// The value of the first member named `key`.
pub open spec fn lookup(fields: Seq<(String, JsonField)>, key: Seq<char>) -> Option<JsonField>
    decreases fields.len(),
{
    if fields.len() == 0 {
        None
    } else if fields[0].0@ == key {
        Some(fields[0].1)
    } else {
        lookup(fields.drop_first(), key)
    }
}

impl RequestBody {
    /// The member named `key`, if there is one.
    pub open spec fn field(&self, key: Seq<char>) -> Option<JsonField> {
        lookup(self.fields@, key)
    }

    /// The string held by the member named `key`; `None` when that member
    /// is absent or is not a string.
    pub open spec fn text(&self, key: Seq<char>) -> Option<Seq<char>> {
        match self.field(key) {
            Some(JsonField::Text(s)) => Some(s@),
            _ => None,
        }
    }

    /// The integer held by the member named `key`; `None` when that member
    /// is absent or is not an integer that fits in an `i64`.
    pub open spec fn integer(&self, key: Seq<char>) -> Option<i64> {
        match self.field(key) {
            Some(JsonField::Integer(n)) => Some(n),
            _ => None,
        }
    }

    /// Index of the member named `key`, found by a scan from the front.
    fn position(&self, key: &str) -> (r: Option<usize>)
        ensures
            match r {
                Some(i) => i < self.fields@.len() && self.field(key@) == Some(self.fields@[i as int].1),
                None => self.field(key@) is None,
            },
    {
        let wanted = String::from_str(key);
        let mut i: usize = 0;
        assert(self.fields@.skip(0) =~= self.fields@);
        while i < self.fields.len()
            invariant
                i <= self.fields@.len(),
                wanted@ == key@,
                lookup(self.fields@, key@) == lookup(self.fields@.skip(i as int), key@),
            decreases self.fields@.len() - i,
        {
            let ghost rest = self.fields@.skip(i as int);
            assert(rest.drop_first() =~= self.fields@.skip(i + 1));
            if self.fields[i].0 == wanted {
                return Some(i);
            }
            i = i + 1;
        }
        assert(self.fields@.skip(i as int).len() == 0);
        None
    }

    /// The string member named `key`, copied out.
    pub fn get_str(&self, key: &str) -> (r: Option<String>)
        ensures
            r.deep_view() == self.text(key@),
    {
        match self.position(key) {
            Some(i) => match &self.fields[i].1 {
                JsonField::Text(s) => Some(s.clone()),
                _ => None,
            },
            None => None,
        }
    }

    /// The integer member named `key`.
    pub fn get_i64(&self, key: &str) -> (r: Option<i64>)
        ensures
            r == self.integer(key@),
    {
        match self.position(key) {
            Some(i) => match &self.fields[i].1 {
                JsonField::Integer(n) => Some(*n),
                _ => None,
            },
            None => None,
        }
    }
}

/// Whether `s` is the text `lit`.
pub fn text_is(s: &String, lit: &str) -> (r: bool)
    ensures
        r == (s@ == lit@),
{
    *s == String::from_str(lit)
}

} // verus!
