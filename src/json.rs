use vstd::prelude::*;

verus! {

/// A JSON value. Numbers keep their decimal text, so that an identifier is
/// echoed exactly as it came in. Object members keep their order.
#[derive(Debug, PartialEq)]
pub enum Json {
    Null,
    Bool(bool),
    Number(String),
    Str(String),
    Array(Vec<Json>),
    Object(Vec<(String, Json)>),
}

/// The value of member `key` among `fields`; where a key occurs more than once,
/// the last occurrence wins.
pub open spec fn field(fields: Seq<(String, Json)>, key: Seq<char>) -> Option<Json>
    decreases fields.len(),
{
    if fields.len() == 0 {
        None
    } else if fields.last().0@ == key {
        Some(fields.last().1)
    } else {
        field(fields.drop_last(), key)
    }
}

/// The members of an object; any other value has none.
pub open spec fn members(j: Json) -> Seq<(String, Json)> {
    match j {
        Json::Object(fields) => fields@,
        _ => Seq::empty(),
    }
}

/// The member `key` of `j`, where `j` is an object that has it.
pub open spec fn member(j: Json, key: Seq<char>) -> Option<Json> {
    field(members(j), key)
}

/// The text of a string value.
pub open spec fn text_of(j: Option<Json>) -> Option<Seq<char>> {
    match j {
        Some(Json::Str(s)) => Some(s@),
        _ => None,
    }
}

/// Keys that are pairwise distinct.
pub open spec fn distinct_keys(keys: Seq<String>) -> bool {
    forall|i: int, k: int|
        0 <= i < keys.len() && 0 <= k < keys.len() && i != k ==> keys[i]@ != keys[k]@
}

/// Takes the object members apart and returns, for each of `keys`, the value
/// that the object holds under it.
pub fn pick(fields: Vec<(String, Json)>, keys: &Vec<String>) -> (r: Vec<Option<Json>>)
    requires
        distinct_keys(keys@),
    ensures
        r@.len() == keys@.len(),
        forall|i: int| 0 <= i < keys@.len() ==> r@[i] == field(fields@, keys@[i]@),
{
    let ghost all = fields@;
    let mut rest = fields;
    let mut r: Vec<Option<Json>> = Vec::new();
    let mut i: usize = 0;
    while i < keys.len()
        invariant
            i <= keys@.len(),
            r@.len() == i,
            rest@ == all,
            forall|k: int| 0 <= k < i ==> r@[k] is None,
        decreases keys@.len() - i,
    {
        r.push(None);
        i = i + 1;
    }
    while rest.len() > 0
        invariant
            distinct_keys(keys@),
            r@.len() == keys@.len(),
            rest@.len() <= all.len(),
            rest@ == all.subrange(0, rest@.len() as int),
            forall|k: int|
                0 <= k < keys@.len() ==> field(all, keys@[k]@) == match r@[k] {
                    Some(v) => Some(v),
                    None => field(rest@, keys@[k]@),
                },
        decreases rest@.len(),
    {
        let ghost before = rest@;
        let ghost r_before = r@;
        let (key, value) = rest.pop().unwrap();
        assert(before.drop_last() == rest@);
        assert(rest@ == all.subrange(0, rest@.len() as int));
        let mut k: usize = 0;
        let mut found: usize = keys.len();
        while k < keys.len()
            invariant
                k <= keys@.len(),
                r@.len() == keys@.len(),
                r@ == r_before,
                found == keys@.len() || found < k,
                found == keys@.len() ==> forall|m: int|
                    0 <= m < k ==> !(r@[m] is None && keys@[m]@ == key@),
                found < keys@.len() ==> r@[found as int] is None && keys@[found as int]@ == key@,
            decreases keys@.len() - k,
        {
            if found == keys.len() && r[k].is_none() && keys[k] == key {
                found = k;
            }
            k = k + 1;
        }
        if found < keys.len() {
            r.set(found, Some(value));
        }
        assert forall|m: int| 0 <= m < keys@.len() implies field(all, keys@[m]@) == match r@[m] {
            Some(v) => Some(v),
            None => field(rest@, keys@[m]@),
        } by {
            assert(field(before, keys@[m]@) == if before.last().0@ == keys@[m]@ {
                Some(before.last().1)
            } else {
                field(rest@, keys@[m]@)
            });
        }
    }
    r
}

/// Object members whose keys are pairwise distinct.
pub open spec fn distinct_members(fields: Seq<(String, Json)>) -> bool {
    forall|i: int, k: int|
        0 <= i < fields.len() && 0 <= k < fields.len() && i != k ==> fields[i].0@ != fields[k].0@
}

/// Where keys are distinct, each member is found under its own key.
pub proof fn lemma_members_found(fields: Seq<(String, Json)>)
    requires
        distinct_members(fields),
    ensures
        forall|i: int| 0 <= i < fields.len() ==> #[trigger] field(fields, fields[i].0@) == Some(fields[i].1),
    decreases fields.len(),
{
    if fields.len() > 0 {
        let rest = fields.drop_last();
        assert(distinct_members(rest));
        lemma_members_found(rest);
        assert forall|i: int| 0 <= i < fields.len() implies #[trigger] field(fields, fields[i].0@) == Some(
            fields[i].1,
        ) by {
            if i < fields.len() - 1 {
                assert(rest[i] == fields[i]);
                assert(fields.last().0@ != fields[i].0@);
                assert(field(rest, rest[i].0@) == Some(rest[i].1));
            }
        }
    }
}

/// A member of an object.
pub fn entry(key: &str, value: Json) -> (r: (String, Json))
    ensures
        r.0@ == key@,
        r.1 == value,
{
    (String::from_str(key), value)
}

/// An object of the given members, whose keys are distinct.
pub fn object(fields: Vec<(String, Json)>) -> (r: Json)
    requires
        distinct_members(fields@),
    ensures
        r == Json::Object(fields),
        members(r).len() == fields@.len(),
        forall|i: int| 0 <= i < fields@.len() ==> member(r, fields@[i].0@) == Some(fields@[i].1),
{
    proof {
        lemma_members_found(fields@);
    }
    Json::Object(fields)
}

/// A JSON string.
pub fn string(s: &str) -> (r: Json)
    ensures
        text_of(Some(r)) == Some(s@),
{
    Json::Str(String::from_str(s))
}

pub open spec fn digit_char(d: nat) -> char {
    if d == 0 {
        '0'
    } else if d == 1 {
        '1'
    } else if d == 2 {
        '2'
    } else if d == 3 {
        '3'
    } else if d == 4 {
        '4'
    } else if d == 5 {
        '5'
    } else if d == 6 {
        '6'
    } else if d == 7 {
        '7'
    } else if d == 8 {
        '8'
    } else {
        '9'
    }
}

/// The decimal digits of `n`, most significant first, without leading zeros.
pub open spec fn digits(n: nat) -> Seq<char>
    decreases n,
{
    if n < 10 {
        seq![digit_char(n)]
    } else {
        digits(n / 10) + seq![digit_char(n % 10)]
    }
}

/// The decimal text of an integer, with a leading minus sign when negative.
pub open spec fn decimal(n: int) -> Seq<char> {
    if n < 0 {
        seq!['-'] + digits((-n) as nat)
    } else {
        digits(n as nat)
    }
}

fn digit_text(d: u64) -> (r: &'static str)
    requires
        d < 10,
    ensures
        r@ == seq![digit_char(d as nat)],
{
    proof {
        reveal_strlit("0");
        reveal_strlit("1");
        reveal_strlit("2");
        reveal_strlit("3");
        reveal_strlit("4");
        reveal_strlit("5");
        reveal_strlit("6");
        reveal_strlit("7");
        reveal_strlit("8");
        reveal_strlit("9");
    }
    let r = if d == 0 {
        "0"
    } else if d == 1 {
        "1"
    } else if d == 2 {
        "2"
    } else if d == 3 {
        "3"
    } else if d == 4 {
        "4"
    } else if d == 5 {
        "5"
    } else if d == 6 {
        "6"
    } else if d == 7 {
        "7"
    } else if d == 8 {
        "8"
    } else {
        "9"
    };
    assert(r@ =~= seq![digit_char(d as nat)]);
    r
}

fn append_digits(s: &mut String, n: u64)
    ensures
        final(s)@ == old(s)@ + digits(n as nat),
    decreases n,
{
    let ghost start = s@;
    if n >= 10 {
        append_digits(s, n / 10);
    }
    s.append(digit_text(n % 10));
    assert(s@ =~= start + digits(n as nat));
}

impl Json {
    /// An integer as a JSON number.
    pub fn integer(n: i64) -> (r: Json)
        ensures
            r matches Json::Number(t) && t@ == decimal(n as int),
    {
        let mut t = String::new();
        if n < 0 {
            t.append("-");
            proof {
                reveal_strlit("-");
            }
            append_digits(&mut t, (-(n as i128)) as u64);
        } else {
            append_digits(&mut t, n as u64);
        }
        proof {
            reveal_strlit("-");
        }
        assert(t@ =~= decimal(n as int));
        Json::Number(t)
    }
}

} // verus!
