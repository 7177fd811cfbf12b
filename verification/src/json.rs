use vstd::prelude::*;

verus! {

/// A structured protocol document: the shape of the JSON text this
/// layer exchanges with the host. The text itself is produced and
/// parsed outside the library; the library decides everything about the
/// document's shape and content.
#[derive(Debug, PartialEq, Eq)]
pub enum JsonValue {
    Null,
    Bool(bool),
    UInt(u64),
    Text(String),
    Object(Vec<(String, JsonValue)>),
}

// --- named member lookup over document objects ---
//
// Decoders read an object by its member names: the members may come in
// any order, a member this schema does not know is ignored, and of a
// repeated name the first occurrence counts. Encoders emit one
// canonical order; the decoders do not rely on it.

/// The value of the first member of `fs` named `key`, if any.
pub open spec fn spec_field(fs: Seq<(String, JsonValue)>, key: Seq<char>) -> Option<JsonValue>
    decreases fs.len(),
{
    if fs.len() == 0 {
        None
    } else if fs[0].0@ == key {
        Some(fs[0].1)
    } else {
        spec_field(fs.subrange(1, fs.len() as int), key)
    }
}

proof fn lemma_field_push_step(
    fs: Seq<(String, JsonValue)>,
    x: (String, JsonValue),
    key: Seq<char>,
)
    ensures
        spec_field(fs.push(x), key) == (if spec_field(fs, key) is Some {
            spec_field(fs, key)
        } else if x.0@ == key {
            Some(x.1)
        } else {
            None::<JsonValue>
        }),
    decreases fs.len(),
{
    if fs.len() == 0 {
        assert(fs.push(x)[0] == x);
        assert(fs.push(x).subrange(1, 1) =~= Seq::<(String, JsonValue)>::empty());
        assert(spec_field(fs.push(x).subrange(1, 1), key) is None);
    } else {
        let tail = fs.subrange(1, fs.len() as int);
        assert(fs.push(x)[0] == fs[0]);
        assert(fs.push(x).subrange(1, (fs.len() + 1) as int) =~= tail.push(x));
        lemma_field_push_step(tail, x, key);
        assert(spec_field(fs.push(x), key) == (if fs[0].0@ == key {
            Some(fs.push(x)[0].1)
        } else {
            spec_field(tail.push(x), key)
        }));
        assert(spec_field(fs, key) == (if fs[0].0@ == key {
            Some(fs[0].1)
        } else {
            spec_field(tail, key)
        }));
    }
}

/// Appending a member changes only the lookup of its own name, and that
/// only where the name was absent.
pub broadcast proof fn lemma_field_push(
    fs: Seq<(String, JsonValue)>,
    x: (String, JsonValue),
    key: Seq<char>,
)
    ensures
        #[trigger] spec_field(fs.push(x), key) == (if spec_field(fs, key) is Some {
            spec_field(fs, key)
        } else if x.0@ == key {
            Some(x.1)
        } else {
            None::<JsonValue>
        }),
{
    lemma_field_push_step(fs, x, key);
}

/// A member found within a prefix is the member of the whole object.
proof fn lemma_field_take_extends(fs: Seq<(String, JsonValue)>, j: int, key: Seq<char>)
    requires
        0 <= j <= fs.len(),
        spec_field(fs.take(j), key) is Some,
    ensures
        spec_field(fs, key) == spec_field(fs.take(j), key),
    decreases j,
{
    assert(j > 0);
    assert(fs.take(j)[0] == fs[0]);
    if fs[0].0@ == key {
    } else {
        assert(fs.take(j).subrange(1, j) =~= fs.subrange(1, fs.len() as int).take(j - 1));
        lemma_field_take_extends(fs.subrange(1, fs.len() as int), j - 1, key);
    }
}

/// Finds the first member of `fs` named `key`, wherever it stands.
pub(crate) fn find_field<'a>(fs: &'a Vec<(String, JsonValue)>, key: &str) -> (r: Option<&'a JsonValue>)
    ensures
        (match spec_field(fs@, key@) {
            Some(v) => r matches Some(x) && *x == v,
            None => r is None,
        }),
{
    let k = String::from_str(key);
    let n = fs.len();
    let mut i: usize = 0;
    while i < n
        invariant
            k@ == key@,
            n == fs@.len(),
            i <= n,
            spec_field(fs@.take(i as int), key@) is None,
        decreases n - i,
    {
        proof {
            assert(fs@.take(i + 1) =~= fs@.take(i as int).push(fs@[i as int]));
            lemma_field_push(fs@.take(i as int), fs@[i as int], key@);
        }
        if fs[i].0 == k {
            proof {
                lemma_field_take_extends(fs@, i + 1, key@);
            }
            return Some(&fs[i].1);
        }
        i = i + 1;
    }
    proof {
        assert(fs@.take(n as int) =~= fs@);
    }
    None
}

} // verus!
