//! The serialized form of a record: a structured key-value encoding with
//! omission semantics for the optional identifiers.

use vstd::prelude::*;
use crate::token::TokenData;
use crate::token::TokenModel;

verus! {

/// A field value of the key-value form.
#[derive(Debug, Clone, PartialEq, Eq)]
pub enum Value {
    Str(String),
    Int(i64),
    Null,
}

/// The model of a field value.
pub enum ValueModel {
    Str(Seq<char>),
    Int(int),
    Null,
}

impl View for Value {
    type V = ValueModel;

    open spec fn view(&self) -> ValueModel {
        match self {
            Value::Str(s) => ValueModel::Str(s@),
            Value::Int(i) => ValueModel::Int(*i as int),
            Value::Null => ValueModel::Null,
        }
    }
}

/// One key-value pair of the encoded record.
#[derive(Debug, Clone, PartialEq, Eq)]
pub struct Entry {
    pub key: String,
    pub value: Value,
}

/// The model of a pair.
pub struct EntryModel {
    pub key: Seq<char>,
    pub value: ValueModel,
}

impl View for Entry {
    type V = EntryModel;

    open spec fn view(&self) -> EntryModel {
        EntryModel { key: self.key@, value: self.value@ }
    }
}

/// The model of a whole encoded record.
pub open spec fn entries_view(s: Seq<Entry>) -> Seq<EntryModel> {
    s.map_values(|e: Entry| e@)
}

/// The value under the first occurrence of `key`, if any.
pub open spec fn lookup(s: Seq<EntryModel>, key: Seq<char>) -> Option<ValueModel>
    decreases s.len(),
{
    if s.len() == 0 {
        None
    } else if s[0].key == key {
        Some(s[0].value)
    } else {
        lookup(s.drop_first(), key)
    }
}

/// Whether some pair of `s` carries `key`.
pub open spec fn has_key(s: Seq<EntryModel>, key: Seq<char>) -> bool {
    exists|i: int| 0 <= i < s.len() && s[i].key == key
}

/// How an optional string encodes: its value when present, null otherwise.
pub open spec fn nullable(o: Option<Seq<char>>) -> ValueModel {
    match o {
        Some(s) => ValueModel::Str(s),
        None => ValueModel::Null,
    }
}

/// The pairs every encoded record carries, in order.
pub open spec fn base_entries(t: TokenModel) -> Seq<EntryModel> {
    seq![
        EntryModel { key: "access_token"@, value: ValueModel::Str(t.access_token) },
        EntryModel { key: "refresh_token"@, value: nullable(t.refresh_token) },
        EntryModel { key: "expires_in"@, value: ValueModel::Int(t.expires_in) },
        EntryModel { key: "expiry_timestamp"@, value: ValueModel::Int(t.expiry_timestamp) },
        EntryModel { key: "token_type"@, value: ValueModel::Str(t.token_type) },
        EntryModel { key: "email"@, value: nullable(t.email) },
    ]
}

/// The pair an optional identifier contributes: one pair when present,
/// nothing at all when absent.
pub open spec fn present_entry(key: Seq<char>, o: Option<Seq<char>>) -> Seq<EntryModel> {
    match o {
        Some(s) => seq![EntryModel { key: key, value: ValueModel::Str(s) }],
        None => Seq::empty(),
    }
}

/// The encoded form of a record: the six pairs every record carries,
/// then `project_id` and `session_id` only when present.
pub open spec fn spec_encode(t: TokenModel) -> Seq<EntryModel> {
    base_entries(t) + present_entry("project_id"@, t.project_id) + present_entry(
        "session_id"@,
        t.session_id,
    )
}

/// Decoding a key that must be present with a string value.
pub open spec fn required_str(v: Option<ValueModel>) -> Option<Seq<char>> {
    match v {
        Some(ValueModel::Str(s)) => Some(s),
        _ => None,
    }
}

/// Decoding a key that must be present, with null standing for "no value".
pub open spec fn required_nullable_str(v: Option<ValueModel>) -> Option<Option<Seq<char>>> {
    match v {
        Some(ValueModel::Str(s)) => Some(Some(s)),
        Some(ValueModel::Null) => Some(None),
        _ => None,
    }
}

/// Decoding an optional string key: absence and null both mean "no value".
pub open spec fn optional_str(v: Option<ValueModel>) -> Option<Option<Seq<char>>> {
    match v {
        None => Some(None),
        Some(ValueModel::Null) => Some(None),
        Some(ValueModel::Str(s)) => Some(Some(s)),
        Some(ValueModel::Int(_)) => None,
    }
}

/// Decoding an integer key that defaults to zero when absent.
pub open spec fn int_or_zero(v: Option<ValueModel>) -> Option<int> {
    match v {
        None => Some(0),
        Some(ValueModel::Int(i)) => Some(i),
        _ => None,
    }
}

/// The decoded record, or nothing when a required key is missing or a
/// value has the wrong shape. `access_token` and `token_type` must be
/// strings; `email` must be present but may be null; `refresh_token`,
/// `project_id` and `session_id` may be absent or null; the two counters
/// default to zero when absent.
pub open spec fn spec_decode(s: Seq<EntryModel>) -> Option<TokenModel> {
    let access_token = required_str(lookup(s, "access_token"@));
    let refresh_token = optional_str(lookup(s, "refresh_token"@));
    let expires_in = int_or_zero(lookup(s, "expires_in"@));
    let expiry_timestamp = int_or_zero(lookup(s, "expiry_timestamp"@));
    let token_type = required_str(lookup(s, "token_type"@));
    let email = required_nullable_str(lookup(s, "email"@));
    let project_id = optional_str(lookup(s, "project_id"@));
    let session_id = optional_str(lookup(s, "session_id"@));
    if access_token is Some && refresh_token is Some && expires_in is Some && expiry_timestamp
        is Some && token_type is Some && email is Some && project_id is Some && session_id
        is Some {
        Some(
            TokenModel {
                access_token: access_token->0,
                refresh_token: refresh_token->0,
                expires_in: expires_in->0,
                expiry_timestamp: expiry_timestamp->0,
                token_type: token_type->0,
                email: email->0,
                project_id: project_id->0,
                session_id: session_id->0,
            },
        )
    } else {
        None
    }
}

/// Ground facts about the eight key literals — a length for each and a
/// distinguishing first character within each length — from which any two
/// distinct keys are told apart.
proof fn lemma_key_facts()
    ensures
        "access_token"@.len() == 12,
        "refresh_token"@.len() == 13,
        "expires_in"@.len() == 10,
        "expiry_timestamp"@.len() == 16,
        "token_type"@.len() == 10,
        "email"@.len() == 5,
        "project_id"@.len() == 10,
        "session_id"@.len() == 10,
        "expires_in"@[0] == 'e',
        "token_type"@[0] == 't',
        "project_id"@[0] == 'p',
        "session_id"@[0] == 's',
{
    reveal_strlit("access_token");
    reveal_strlit("refresh_token");
    reveal_strlit("expires_in");
    reveal_strlit("expiry_timestamp");
    reveal_strlit("token_type");
    reveal_strlit("email");
    reveal_strlit("project_id");
    reveal_strlit("session_id");
}

/// Looking a key up in a concatenation: the left part answers first.
proof fn lemma_lookup_append(a: Seq<EntryModel>, b: Seq<EntryModel>, key: Seq<char>)
    ensures
        lookup(a + b, key) == if lookup(a, key) is Some {
            lookup(a, key)
        } else {
            lookup(b, key)
        },
    decreases a.len(),
{
    if a.len() == 0 {
        assert(a + b =~= b);
    } else {
        assert((a + b)[0] == a[0]);
        if a[0].key == key {
        } else {
            assert((a + b).drop_first() =~= a.drop_first() + b);
            lemma_lookup_append(a.drop_first(), b, key);
        }
    }
}

/// Round trip: decoding the encoded form of any record yields exactly
/// that record — every field, including the omitted-when-absent ones.
pub proof fn lemma_round_trip(t: TokenModel)
    ensures
        spec_decode(spec_encode(t)) == Some(t),
{
    lemma_key_facts();
    reveal_with_fuel(lookup, 10);
    let base = base_entries(t);
    let proj = present_entry("project_id"@, t.project_id);
    let sess = present_entry("session_id"@, t.session_id);
    assert(spec_encode(t) == (base + proj) + sess);
    assert forall|key: Seq<char>|
        lookup(spec_encode(t), key) == if lookup(base, key) is Some {
            lookup(base, key)
        } else if lookup(proj, key) is Some {
            lookup(proj, key)
        } else {
            lookup(sess, key)
        } by {
        lemma_lookup_append(base + proj, sess, key);
        lemma_lookup_append(base, proj, key);
    }
    assert(lookup(base, "access_token"@) == Some(ValueModel::Str(t.access_token)));
    assert(lookup(base, "refresh_token"@) == Some(nullable(t.refresh_token)));
    assert(lookup(base, "expires_in"@) == Some(ValueModel::Int(t.expires_in)));
    assert(lookup(base, "expiry_timestamp"@) == Some(ValueModel::Int(t.expiry_timestamp)));
    assert(lookup(base, "token_type"@) == Some(ValueModel::Str(t.token_type)));
    assert(lookup(base, "email"@) == Some(nullable(t.email)));
    assert(lookup(base, "project_id"@) is None);
    assert(lookup(base, "session_id"@) is None);
    assert(optional_str(lookup(spec_encode(t), "project_id"@)) == Some(t.project_id));
    assert(optional_str(lookup(spec_encode(t), "session_id"@)) == Some(t.session_id));
}

/// Omission law: the encoded form carries a `project_id` pair exactly when
/// the record has one, and likewise for `session_id`; absence leaves the
/// key out entirely rather than encoding a null.
pub proof fn lemma_omission(t: TokenModel)
    ensures
        has_key(spec_encode(t), "project_id"@) <==> t.project_id is Some,
        has_key(spec_encode(t), "session_id"@) <==> t.session_id is Some,
{
    lemma_key_facts();
    let base = base_entries(t);
    let proj = present_entry("project_id"@, t.project_id);
    let sess = present_entry("session_id"@, t.session_id);
    let s = spec_encode(t);
    assert(base.len() == 6);
    assert(s == (base + proj) + sess);
    assert(base[0].key != "project_id"@ && base[0].key != "session_id"@);
    assert(base[1].key != "project_id"@ && base[1].key != "session_id"@);
    assert(base[2].key != "project_id"@ && base[2].key != "session_id"@);
    assert(base[3].key != "project_id"@ && base[3].key != "session_id"@);
    assert(base[4].key != "project_id"@ && base[4].key != "session_id"@);
    assert(base[5].key != "project_id"@ && base[5].key != "session_id"@);
    if t.project_id is Some {
        assert(s[6] == proj[0]);
        assert(s[6].key == "project_id"@);
    } else {
        assert forall|i: int| 0 <= i < s.len() implies s[i].key != "project_id"@ by {
            if i < 6 {
                assert(s[i] == base[i]);
            } else {
                assert(s[i] == sess[i - 6]);
            }
        }
    }
    if t.session_id is Some {
        let i: int = if t.project_id is Some {
            7
        } else {
            6
        };
        assert(s[i] == sess[0]);
        assert(s[i].key == "session_id"@);
    } else {
        assert forall|i: int| 0 <= i < s.len() implies s[i].key != "session_id"@ by {
            if i < 6 {
                assert(s[i] == base[i]);
            } else {
                assert(s[i] == proj[i - 6]);
            }
        }
    }
}

/// The first pair carrying `key`, if any.
fn lookup_entry<'a>(entries: &'a Vec<Entry>, key: &String) -> (r: Option<&'a Value>)
    ensures
        match r {
            Some(v) => lookup(entries_view(entries@), key@) == Some(v@),
            None => lookup(entries_view(entries@), key@) is None,
        },
{
    let mut i: usize = 0;
    proof {
        assert(entries_view(entries@).skip(0) =~= entries_view(entries@));
    }
    while i < entries.len()
        invariant
            0 <= i <= entries.len(),
            lookup(entries_view(entries@), key@) == lookup(
                entries_view(entries@).skip(i as int),
                key@,
            ),
        decreases entries.len() - i,
    {
        let ghost s = entries_view(entries@);
        assert(s.skip(i as int)[0] == s[i as int]);
        if entries[i].key == *key {
            return Some(&entries[i].value);
        }
        proof {
            assert(s.skip(i as int).drop_first() =~= s.skip(i as int + 1));
        }
        i = i + 1;
    }
    proof {
        assert(entries_view(entries@).skip(entries@.len() as int) =~= Seq::<
            EntryModel,
        >::empty());
    }
    None
}

impl TokenData {
    /// The key-value form of this record: the six pairs every record
    /// carries, then `project_id` and `session_id` only when present.
    pub fn encode(&self) -> (r: Vec<Entry>)
        ensures
            entries_view(r@) == spec_encode(self@),
    {
        let mut out: Vec<Entry> = Vec::new();
        out.push(
            Entry { key: "access_token".to_owned(), value: Value::Str(self.access_token.clone()) },
        );
        let refresh: Value = match &self.refresh_token {
            Some(s) => Value::Str(s.clone()),
            None => Value::Null,
        };
        out.push(Entry { key: "refresh_token".to_owned(), value: refresh });
        out.push(Entry { key: "expires_in".to_owned(), value: Value::Int(self.expires_in) });
        out.push(
            Entry { key: "expiry_timestamp".to_owned(), value: Value::Int(self.expiry_timestamp) },
        );
        out.push(
            Entry { key: "token_type".to_owned(), value: Value::Str(self.token_type.clone()) },
        );
        let email: Value = match &self.email {
            Some(s) => Value::Str(s.clone()),
            None => Value::Null,
        };
        out.push(Entry { key: "email".to_owned(), value: email });
        if let Some(p) = &self.project_id {
            out.push(Entry { key: "project_id".to_owned(), value: Value::Str(p.clone()) });
        }
        if let Some(s) = &self.session_id {
            out.push(Entry { key: "session_id".to_owned(), value: Value::Str(s.clone()) });
        }
        proof {
            assert(entries_view(out@) =~= spec_encode(self@));
        }
        out
    }

    /// The record a key-value form describes, or nothing when a required
    /// key is missing or a value has the wrong shape, exactly as
    /// [`spec_decode`] says.
    pub fn decode(entries: &Vec<Entry>) -> (r: Option<TokenData>)
        ensures
            match r {
                Some(t) => spec_decode(entries_view(entries@)) == Some(t@),
                None => spec_decode(entries_view(entries@)) is None,
            },
    {
        let access_token: String = match lookup_entry(entries, &"access_token".to_owned()) {
            Some(Value::Str(s)) => s.clone(),
            _ => {
                return None;
            },
        };
        let refresh_token: Option<String> = match lookup_entry(
            entries,
            &"refresh_token".to_owned(),
        ) {
            None => None,
            Some(Value::Null) => None,
            Some(Value::Str(s)) => Some(s.clone()),
            Some(Value::Int(_)) => {
                return None;
            },
        };
        let expires_in: i64 = match lookup_entry(entries, &"expires_in".to_owned()) {
            None => 0,
            Some(Value::Int(i)) => *i,
            _ => {
                return None;
            },
        };
        let expiry_timestamp: i64 = match lookup_entry(entries, &"expiry_timestamp".to_owned()) {
            None => 0,
            Some(Value::Int(i)) => *i,
            _ => {
                return None;
            },
        };
        let token_type: String = match lookup_entry(entries, &"token_type".to_owned()) {
            Some(Value::Str(s)) => s.clone(),
            _ => {
                return None;
            },
        };
        let email: Option<String> = match lookup_entry(entries, &"email".to_owned()) {
            Some(Value::Str(s)) => Some(s.clone()),
            Some(Value::Null) => None,
            _ => {
                return None;
            },
        };
        let project_id: Option<String> = match lookup_entry(entries, &"project_id".to_owned()) {
            None => None,
            Some(Value::Null) => None,
            Some(Value::Str(s)) => Some(s.clone()),
            Some(Value::Int(_)) => {
                return None;
            },
        };
        let session_id: Option<String> = match lookup_entry(entries, &"session_id".to_owned()) {
            None => None,
            Some(Value::Null) => None,
            Some(Value::Str(s)) => Some(s.clone()),
            Some(Value::Int(_)) => {
                return None;
            },
        };
        Some(
            TokenData {
                access_token,
                refresh_token,
                expires_in,
                expiry_timestamp,
                token_type,
                email,
                project_id,
                session_id,
            },
        )
    }
}

} // verus!
