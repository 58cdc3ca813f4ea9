//! Tolerant field extraction from decoded wire records.
//!
//! Every listing endpoint returns an array of JSON objects. The rules
//! here mirror how the wire records are read: a required field that is
//! absent or of the wrong type fails the record; an optional field that
//! is absent or null degrades to `None`; a field with a default
//! degrades to the default only when absent. In each spec function the
//! outer `Option` is the failure marker (`None`: the record is
//! rejected).

use vstd::prelude::*;

verus! {

use crate::json::{Json, JsonV, jv_get, sp_digits_end, sp_digits_val, sp_get_bool, sp_get_str};

/// A required string field.
pub open spec fn sp_req_str(v: JsonV, key: Seq<char>) -> Option<Seq<char>> {
    sp_get_str(v, key)
}

/// An optional string field: absent or null degrades to `None`.
pub open spec fn sp_opt_str(v: JsonV, key: Seq<char>) -> Option<Option<Seq<char>>> {
    match jv_get(v, key) {
        None => Some(None),
        Some(JsonV::Null) => Some(None),
        Some(JsonV::Str(s)) => Some(Some(s)),
        Some(_) => None,
    }
}

/// A required boolean field.
pub open spec fn sp_req_bool(v: JsonV, key: Seq<char>) -> Option<bool> {
    sp_get_bool(v, key)
}

/// A boolean field with a default: absent degrades to the default.
pub open spec fn sp_def_bool(v: JsonV, key: Seq<char>, default: bool) -> Option<bool> {
    match jv_get(v, key) {
        None => Some(default),
        Some(JsonV::Bool(b)) => Some(b),
        Some(_) => None,
    }
}

/// An unsigned 64-bit field with default zero: absent degrades to zero.
pub open spec fn sp_def_u64(v: JsonV, key: Seq<char>) -> Option<int> {
    match jv_get(v, key) {
        None => Some(0),
        Some(JsonV::Num(n)) => if 0 <= n <= u64::MAX {
            Some(n)
        } else {
            None
        },
        Some(_) => None,
    }
}

/// A required unsigned 32-bit field.
pub open spec fn sp_req_u32(v: JsonV, key: Seq<char>) -> Option<int> {
    match jv_get(v, key) {
        Some(JsonV::Num(n)) => if 0 <= n <= u32::MAX {
            Some(n)
        } else {
            None
        },
        _ => None,
    }
}

/// A required unsigned 64-bit field.
pub open spec fn sp_req_u64(v: JsonV, key: Seq<char>) -> Option<int> {
    match jv_get(v, key) {
        Some(JsonV::Num(n)) => if 0 <= n <= u64::MAX {
            Some(n)
        } else {
            None
        },
        _ => None,
    }
}

/// An optional unsigned 64-bit field: absent or null degrades to `None`.
pub open spec fn sp_opt_u64(v: JsonV, key: Seq<char>) -> Option<Option<int>> {
    match jv_get(v, key) {
        None => Some(None),
        Some(JsonV::Null) => Some(None),
        Some(JsonV::Num(n)) => if 0 <= n <= u64::MAX {
            Some(Some(n))
        } else {
            None
        },
        Some(_) => None,
    }
}

/// An optional signed 64-bit field: absent or null degrades to `None`.
pub open spec fn sp_opt_i64(v: JsonV, key: Seq<char>) -> Option<Option<int>> {
    match jv_get(v, key) {
        None => Some(None),
        Some(JsonV::Null) => Some(None),
        Some(JsonV::Num(n)) => if i64::MIN <= n <= i64::MAX {
            Some(Some(n))
        } else {
            None
        },
        Some(_) => None,
    }
}

/// An optional unsigned 16-bit field: absent or null degrades to `None`.
pub open spec fn sp_opt_u16(v: JsonV, key: Seq<char>) -> Option<Option<int>> {
    match jv_get(v, key) {
        None => Some(None),
        Some(JsonV::Null) => Some(None),
        Some(JsonV::Num(n)) => if 0 <= n <= u16::MAX {
            Some(Some(n))
        } else {
            None
        },
        Some(_) => None,
    }
}

/// A required signed 64-bit field.
pub open spec fn sp_req_i64(v: JsonV, key: Seq<char>) -> Option<int> {
    match jv_get(v, key) {
        Some(JsonV::Num(n)) => if i64::MIN <= n <= i64::MAX {
            Some(n)
        } else {
            None
        },
        _ => None,
    }
}

/// A required array-of-strings field.
pub open spec fn sp_req_str_arr(v: JsonV, key: Seq<char>) -> Option<Seq<Seq<char>>> {
    match jv_get(v, key) {
        Some(JsonV::Arr(items)) => if forall|i: int|
            0 <= i < items.len() ==> #[trigger] items[i] is Str {
            Some(Seq::new(items.len(), |i: int| items[i]->Str_0))
        } else {
            None
        },
        _ => None,
    }
}

/// Decimal text as a 16-bit number: an optional plus sign, then one or
/// more digits, value within range. `None` on anything else.
pub open spec fn sp_parse_u16(s: Seq<char>) -> Option<int> {
    let d0: int = if s.len() > 0 && s[0] == '+' {
        1
    } else {
        0
    };
    if s.len() == d0 || sp_digits_end(s, d0) != s.len() || s.len() - d0 > 10 {
        None
    } else {
        let v = sp_digits_val(s, d0, s.len() as int);
        if v > u16::MAX {
            None
        } else {
            Some(v)
        }
    }
}

impl Json {
    /// A required string field, cloned out of the record.
    pub fn req_str(&self, key: &str) -> (r: Option<String>)
        ensures
            match sp_req_str(self@, key@) {
                None => r is None,
                Some(cs) => r matches Some(s) && s@ == cs,
            },
    {
        self.get_str(key)
    }

    /// An optional string field.
    pub fn opt_str(&self, key: &str) -> (r: Option<Option<String>>)
        ensures
            match sp_opt_str(self@, key@) {
                None => r is None,
                Some(None) => r matches Some(i) && i is None,
                Some(Some(cs)) => r matches Some(i) && (i matches Some(s) && s@ == cs),
            },
    {
        match self.get(key) {
            None => Some(None),
            Some(Json::Null) => Some(None),
            Some(Json::Str(s)) => Some(Some(s.clone())),
            Some(_) => None,
        }
    }

    /// A required boolean field.
    pub fn req_bool(&self, key: &str) -> (r: Option<bool>)
        ensures
            r == sp_req_bool(self@, key@),
    {
        self.get_bool(key)
    }

    /// A boolean field with a default.
    pub fn def_bool(&self, key: &str, default: bool) -> (r: Option<bool>)
        ensures
            r == sp_def_bool(self@, key@, default),
    {
        match self.get(key) {
            None => Some(default),
            Some(Json::Bool(b)) => Some(*b),
            Some(_) => None,
        }
    }

    /// An unsigned 64-bit field with default zero.
    pub fn def_u64(&self, key: &str) -> (r: Option<u64>)
        ensures
            match sp_def_u64(self@, key@) {
                None => r is None,
                Some(n) => r matches Some(x) && x as int == n,
            },
    {
        match self.get(key) {
            None => Some(0),
            Some(Json::Num(n)) => {
                let n = *n;
                if 0 <= n && n <= u64::MAX as i128 {
                    Some(n as u64)
                } else {
                    None
                }
            },
            Some(_) => None,
        }
    }

    /// A required unsigned 32-bit field.
    pub fn req_u32(&self, key: &str) -> (r: Option<u32>)
        ensures
            match sp_req_u32(self@, key@) {
                None => r is None,
                Some(n) => r matches Some(x) && x as int == n,
            },
    {
        match self.get(key) {
            Some(Json::Num(n)) => {
                let n = *n;
                if 0 <= n && n <= u32::MAX as i128 {
                    Some(n as u32)
                } else {
                    None
                }
            },
            _ => None,
        }
    }

    /// A required unsigned 64-bit field.
    pub fn req_u64(&self, key: &str) -> (r: Option<u64>)
        ensures
            match sp_req_u64(self@, key@) {
                None => r is None,
                Some(n) => r matches Some(x) && x as int == n,
            },
    {
        match self.get(key) {
            Some(Json::Num(n)) => {
                let n = *n;
                if 0 <= n && n <= u64::MAX as i128 {
                    Some(n as u64)
                } else {
                    None
                }
            },
            _ => None,
        }
    }

    /// An optional unsigned 64-bit field.
    pub fn opt_u64(&self, key: &str) -> (r: Option<Option<u64>>)
        ensures
            match sp_opt_u64(self@, key@) {
                None => r is None,
                Some(None) => r matches Some(i) && i is None,
                Some(Some(n)) => r matches Some(i) && (i matches Some(x) && x as int == n),
            },
    {
        match self.get(key) {
            None => Some(None),
            Some(Json::Null) => Some(None),
            Some(Json::Num(n)) => {
                let n = *n;
                if 0 <= n && n <= u64::MAX as i128 {
                    Some(Some(n as u64))
                } else {
                    None
                }
            },
            Some(_) => None,
        }
    }

    /// An optional signed 64-bit field.
    pub fn opt_i64(&self, key: &str) -> (r: Option<Option<i64>>)
        ensures
            match sp_opt_i64(self@, key@) {
                None => r is None,
                Some(None) => r matches Some(i) && i is None,
                Some(Some(n)) => r matches Some(i) && (i matches Some(x) && x as int == n),
            },
    {
        match self.get(key) {
            None => Some(None),
            Some(Json::Null) => Some(None),
            Some(Json::Num(n)) => {
                let n = *n;
                if i64::MIN as i128 <= n && n <= i64::MAX as i128 {
                    Some(Some(n as i64))
                } else {
                    None
                }
            },
            Some(_) => None,
        }
    }

    /// A required signed 64-bit field.
    pub fn req_i64(&self, key: &str) -> (r: Option<i64>)
        ensures
            match sp_req_i64(self@, key@) {
                None => r is None,
                Some(n) => r matches Some(x) && x as int == n,
            },
    {
        match self.get(key) {
            Some(Json::Num(n)) => {
                let n = *n;
                if i64::MIN as i128 <= n && n <= i64::MAX as i128 {
                    Some(n as i64)
                } else {
                    None
                }
            },
            _ => None,
        }
    }

    /// A required array-of-strings field, cloned out of the record.
    #[verifier::loop_isolation(false)]
    pub fn req_str_arr(&self, key: &str) -> (r: Option<Vec<String>>)
        ensures
            match sp_req_str_arr(self@, key@) {
                None => r is None,
                Some(ss) => r matches Some(v) && crate::http::strings_view(v@) == ss,
            },
    {
        match self.get(key) {
            Some(Json::Arr(items)) => {
                let ghost iv = crate::json::json_seq_view(items@);
                proof {
                    crate::json::lemma_json_seq_view(items@);
                }
                let mut out: Vec<String> = Vec::new();
                let n = items.len();
                let mut k: usize = 0;
                while k < n
                    invariant
                        k <= n,
                        out@.len() == k,
                        forall|i: int| 0 <= i < k ==> #[trigger] iv[i] is Str,
                        forall|i: int| 0 <= i < k ==> #[trigger] out@[i]@ == iv[i]->Str_0,
                    decreases n - k,
                {
                    proof {
                        assert(iv[k as int] == items@[k as int]@);
                    }
                    match &items[k] {
                        Json::Str(s) => {
                            proof {
                                assert(items@[k as int]@ is Str);
                            }
                            out.push(s.clone());
                        },
                        _ => {
                            proof {
                                assert(!(items@[k as int]@ is Str));
                            }
                            return None;
                        },
                    }
                    k = k + 1;
                }
                proof {
                    assert(crate::http::strings_view(out@) =~= Seq::new(
                        iv.len(),
                        |i: int| iv[i]->Str_0,
                    ));
                }
                Some(out)
            },
            _ => None,
        }
    }

    /// An optional unsigned 16-bit field.
    pub fn opt_u16(&self, key: &str) -> (r: Option<Option<u16>>)
        ensures
            match sp_opt_u16(self@, key@) {
                None => r is None,
                Some(None) => r matches Some(i) && i is None,
                Some(Some(n)) => r matches Some(i) && (i matches Some(x) && x as int == n),
            },
    {
        match self.get(key) {
            None => Some(None),
            Some(Json::Null) => Some(None),
            Some(Json::Num(n)) => {
                let n = *n;
                if 0 <= n && n <= u16::MAX as i128 {
                    Some(Some(n as u16))
                } else {
                    None
                }
            },
            Some(_) => None,
        }
    }
}

/// Parses decimal text as a 16-bit number, exactly as [`sp_parse_u16`]
/// describes.
#[verifier::loop_isolation(false)]
pub fn parse_u16(s: &str) -> (r: Option<u16>)
    ensures
        match sp_parse_u16(s@) {
            None => r is None,
            Some(n) => r matches Some(x) && x as int == n,
        },
{
    let cs = crate::text::str_chars(s);
    let d0: usize = if cs.len() > 0 && cs[0] == '+' {
        1
    } else {
        0
    };
    if cs.len() == d0 {
        return None;
    }
    let e = crate::json::x_digits_end(&cs, d0);
    if e != cs.len() || cs.len() - d0 > 10 {
        return None;
    }
    let v = crate::json::x_digits_val(&cs, d0, e);
    if v > u16::MAX as i128 {
        None
    } else {
        Some(v as u16)
    }
}

} // verus!