//! The keys under which entities are stored, and what the store's answers
//! mean.

use vstd::prelude::*;
use vstd::string::*;
use crate::error::{Error, ErrorView, Key};
use crate::json::{Json, JsonView};
use crate::schema::{object_at, text_at};

verus! {

/// The key of the entity of the given kind and name.
pub open spec fn key_of(kind: Seq<char>, name: Seq<char>) -> Seq<char> {
    seq!['/'] + kind + seq!['/'] + name
}

/// The least key of a kind: every key of the kind begins with it.
pub open spec fn first_key_of(kind: Seq<char>) -> Seq<char> {
    seq!['/'] + kind + seq!['/']
}

/// The bound above the keys of a kind: the character after the slash takes
/// the place of the slash.
pub open spec fn end_key_of(kind: Seq<char>) -> Seq<char> {
    seq!['/'] + kind + seq!['0']
}

/// Whether a text holds no slash.
pub open spec fn no_slash(s: Seq<char>) -> bool {
    forall|i: int| 0 <= i < s.len() ==> #[trigger] s[i] != '/'
}

/// Two entities have one key only where they have one kind and one name: a
/// store that holds one value for each key holds one entity for each kind
/// and name.
pub proof fn lemma_key_is_unique(k1: Seq<char>, n1: Seq<char>, k2: Seq<char>, n2: Seq<char>)
    requires
        no_slash(k1),
        no_slash(k2),
        key_of(k1, n1) == key_of(k2, n2),
    ensures
        k1 == k2,
        n1 == n2,
{
    let a = key_of(k1, n1);
    let b = key_of(k2, n2);
    assert(a.len() == 2 + k1.len() + n1.len());
    assert(b.len() == 2 + k2.len() + n2.len());
    if k1.len() < k2.len() {
        assert(a[1 + k1.len() as int] == '/');
        assert(b[1 + k1.len() as int] == k2[k1.len() as int]);
    }
    if k2.len() < k1.len() {
        assert(b[1 + k2.len() as int] == '/');
        assert(a[1 + k2.len() as int] == k1[k2.len() as int]);
    }
    assert(k1.len() == k2.len());
    assert forall|i: int| 0 <= i < k1.len() implies k1[i] == k2[i] by {
        assert(a[1 + i] == k1[i]);
        assert(b[1 + i] == k2[i]);
    }
    assert(k1 =~= k2);
    assert(n1.len() == n2.len());
    assert forall|i: int| 0 <= i < n1.len() implies n1[i] == n2[i] by {
        assert(a[2 + k1.len() + i] == n1[i]);
        assert(b[2 + k2.len() + i] == n2[i]);
    }
    assert(n1 =~= n2);
}

/// The places `0..i` of `a` and `b` hold the same characters.
pub open spec fn agree_before(a: Seq<char>, b: Seq<char>, i: int) -> bool {
    &&& 0 <= i <= a.len()
    &&& i <= b.len()
    &&& forall|j: int| 0 <= j < i ==> a[j] == b[j]
}

/// `a` stands before `b` in the order of the keys: at the first place
/// where they differ `a` has ended, or holds the lesser character.
pub open spec fn key_lt(a: Seq<char>, b: Seq<char>) -> bool {
    exists|i: int| #[trigger]
        agree_before(a, b, i) && i < b.len() && (i == a.len() || a[i] < b[i])
}

/// Whether a key lies in the range that is scanned for a kind: from the
/// least key of the kind on, and before the bound above them.
pub open spec fn in_kind_range(kind: Seq<char>, k: Seq<char>) -> bool {
    (k == first_key_of(kind) || key_lt(first_key_of(kind), k)) && key_lt(k, end_key_of(kind))
}

/// The range that is scanned for a kind holds the keys that begin with a
/// slash, the kind and a slash, and no others.
pub proof fn lemma_range_holds_the_kind(kind: Seq<char>, k: Seq<char>)
    ensures
        in_kind_range(kind, k) <==> first_key_of(kind).is_prefix_of(k),
{
    let f = first_key_of(kind);
    let e = end_key_of(kind);
    let last = 1 + kind.len() as int;
    assert(f.len() == last + 1 && e.len() == last + 1);
    assert(f[last] == '/' && e[last] == '0');
    assert forall|j: int| 0 <= j < last implies f[j] == e[j] by {}
    if f.is_prefix_of(k) {
        assert(k.subrange(0, f.len() as int) == f);
        assert forall|j: int| 0 <= j < f.len() implies k[j] == f[j] by {
            assert(k.subrange(0, f.len() as int)[j] == k[j]);
        }
        if k.len() == f.len() {
            assert(k =~= f);
        } else {
            assert(agree_before(f, k, f.len() as int));
        }
        assert(agree_before(k, e, last));
        assert(k[last] < e[last]);
    }
    if in_kind_range(kind, k) {
        let i = choose|i: int| #[trigger]
            agree_before(k, e, i) && i < e.len() && (i == k.len() || k[i] < e[i]);
        if k != f {
            let j = choose|j: int| #[trigger]
                agree_before(f, k, j) && j < k.len() && (j == f.len() || f[j] < k[j]);
            if j < f.len() {
                if i < j {
                    assert(f[i] == k[i]);
                    assert(f[i] == e[i]);
                } else if i == j {
                    if j < last {
                        assert(f[j] == e[j]);
                    }
                } else {
                    assert(k[j] == e[j]);
                    if j < last {
                        assert(f[j] == e[j]);
                    }
                }
                assert(false);
            }
            assert(j == f.len());
            assert(k.subrange(0, f.len() as int) =~= f);
        }
    }
}

/// The key of every entity of a kind lies in the range that is scanned for
/// the kind.
pub proof fn lemma_key_in_range(kind: Seq<char>, name: Seq<char>)
    ensures
        in_kind_range(kind, key_of(kind, name)),
{
    assert(key_of(kind, name).subrange(0, first_key_of(kind).len() as int) =~= first_key_of(kind));
    lemma_range_holds_the_kind(kind, key_of(kind, name));
}

/// The key of the entity of the given kind and name.
pub fn key(kind: &str, name: &str) -> (r: String)
    ensures
        r@ == key_of(kind@, name@),
{
    let mut r = String::from_str("/");
    proof {
        reveal_strlit("/");
    }
    r.append(kind);
    r.append("/");
    r.append(name);
    assert(r@ =~= key_of(kind@, name@));
    r
}

/// The range of keys that holds the entities of a kind: from the first key
/// on, and up to the second, which is no key of the kind.
pub fn kind_range(kind: &str) -> (r: (String, String))
    ensures
        r.0@ == first_key_of(kind@),
        r.1@ == end_key_of(kind@),
{
    let mut start = String::from_str("/");
    let mut end = String::from_str("/");
    proof {
        reveal_strlit("/");
        reveal_strlit("0");
    }
    start.append(kind);
    start.append("/");
    end.append(kind);
    end.append("0");
    assert(start@ =~= first_key_of(kind@));
    assert(end@ =~= end_key_of(kind@));
    (start, end)
}

/// The kind and the name that a value gives for its key.
pub open spec fn kind_and_name_of(e: JsonView) -> Result<(Seq<char>, Seq<char>), ErrorView> {
    match e {
        JsonView::Object(ms) => if text_at(ms, "kind"@) is None {
            Err(ErrorView::MissingKey(Key::Kind))
        } else if crate::json::member_of(ms, "metadata"@) is None {
            Err(ErrorView::MissingKey(Key::Metadata))
        } else if object_at(ms, "metadata"@) is None {
            Err(ErrorView::NotAnObject)
        } else if text_at(object_at(ms, "metadata"@)->Some_0, "name"@) is None {
            Err(ErrorView::MissingKey(Key::Name))
        } else {
            Ok(
                (
                    text_at(ms, "kind"@)->Some_0,
                    text_at(object_at(ms, "metadata"@)->Some_0, "name"@)->Some_0,
                ),
            )
        },
        _ => Err(ErrorView::MissingKey(Key::Kind)),
    }
}

/// Reads from a value the kind and the name under which it is stored.
pub fn kind_and_name(e: &Json) -> (r: Result<(String, String), Error>)
    ensures
        r is Ok == kind_and_name_of(e@) is Ok,
        r is Ok ==> r->Ok_0.0@ == kind_and_name_of(e@)->Ok_0.0 && r->Ok_0.1@ == kind_and_name_of(
            e@,
        )->Ok_0.1,
        r is Err ==> r->Err_0@ == kind_and_name_of(e@)->Err_0,
{
    let kind = match e.get_existing(Key::Kind) {
        Ok(k) => match k.as_str() {
            Some(s) => String::from_str(s),
            None => {
                return Err(Error::MissingKey(Key::Kind));
            },
        },
        Err(x) => {
            return Err(x);
        },
    };
    let metadata = match e.get_existing(Key::Metadata) {
        Ok(m) => m,
        Err(x) => {
            return Err(x);
        },
    };
    match metadata.as_map() {
        Ok(_) => {},
        Err(x) => {
            return Err(x);
        },
    }
    let name = match metadata.get_existing(Key::Name) {
        Ok(n) => match n.as_str() {
            Some(s) => String::from_str(s),
            None => {
                return Err(Error::MissingKey(Key::Name));
            },
        },
        Err(x) => {
            return Err(x);
        },
    };
    Ok((kind, name))
}

/// The key under which a value is written when it is created.
pub fn create_key(e: &Json) -> (r: Result<String, Error>)
    ensures
        r is Ok == kind_and_name_of(e@) is Ok,
        r is Ok ==> r->Ok_0@ == key_of(kind_and_name_of(e@)->Ok_0.0, kind_and_name_of(e@)->Ok_0.1),
        r is Err ==> r->Err_0@ == kind_and_name_of(e@)->Err_0,
{
    match kind_and_name(e) {
        Ok((kind, name)) => Ok(key(kind.as_str(), name.as_str())),
        Err(e) => Err(e),
    }
}

/// What a create has come to: a value is written only where its key was
/// free, and a key that was taken fails the create.
pub fn create_outcome(kind: String, name: String, key_was_free: bool) -> (r: Result<(), Error>)
    ensures
        key_was_free ==> r is Ok,
        !key_was_free ==> r is Err && r->Err_0@ == (ErrorView::KeyExists {
            kind: kind@,
            name: name@,
        }),
{
    if key_was_free {
        Ok(())
    } else {
        Err(Error::KeyExists { kind, name })
    }
}

} // verus!
