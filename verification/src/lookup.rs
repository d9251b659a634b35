//! Asking a lookup function for keys in turn.
//!
//! A lookup function takes the name of a variable and answers with a value
//! or with none. Nothing says that it answers the same way twice, so what
//! is stated of it here is what it may answer. Where it answers as a map
//! holds, what comes of asking it is what the map says.
use crate::native::NativeString;
use vstd::prelude::*;

verus! {

/// What a lookup function says of a key: it gives a value, or it gives
/// none.
pub trait Answer {
    /// The type of the values.
    type Value;

    /// The value that the answer gives, if it gives one.
    spec fn given(self) -> Option<Self::Value>;
}

impl<V> Answer for Option<V> {
    type Value = V;

    open spec fn given(self) -> Option<V> {
        self
    }
}

impl<V, E> Answer for Result<V, E> {
    type Value = V;

    open spec fn given(self) -> Option<V> {
        match self {
            Ok(v) => Some(v),
            Err(_) => None,
        }
    }
}

/// Whether `f`, asked for `key`, may give the value `v`.
pub open spec fn may_give<F, R>(f: F, key: Seq<u8>, v: R::Value) -> bool where
    F: Fn(&NativeString) -> R,
    R: Answer,
 {
    exists|k: &NativeString, out: R| k@ == key && call_ensures(f, (k,), out) && out.given() == Some(v)
}

/// Whether `f`, asked for `key`, may give no value.
pub open spec fn may_skip<F, R>(f: F, key: Seq<u8>) -> bool where F: Fn(&NativeString) -> R, R: Answer {
    exists|k: &NativeString, out: R| k@ == key && call_ensures(f, (k,), out) && out.given() is None
}

/// Whether `f` may give no value for any of `keys`.
pub open spec fn none_given<F, R>(f: F, keys: Seq<Seq<u8>>) -> bool where
    F: Fn(&NativeString) -> R,
    R: Answer,
 {
    forall|j: int| 0 <= j < keys.len() ==> #[trigger] may_skip(f, keys[j])
}

/// Whether `v` may be the first value that `f` gives when it is asked for
/// each of `keys` in turn: `f` may give it for one of them, and no value
/// for any key before that one.
pub open spec fn first_given<F, R>(f: F, keys: Seq<Seq<u8>>, v: R::Value) -> bool where
    F: Fn(&NativeString) -> R,
    R: Answer,
 {
    exists|i: int|
        0 <= i < keys.len() && #[trigger] may_give(f, keys[i], v) && none_given(f, keys.take(i))
}

/// The value that `vars` holds for the first of `keys` that it holds a
/// value for.
pub open spec fn first_set<V>(keys: Seq<Seq<u8>>, vars: Map<Seq<u8>, V>) -> Option<V>
    decreases keys.len(),
{
    if keys.len() == 0 {
        None
    } else if vars.contains_key(keys[0]) {
        Some(vars[keys[0]])
    } else {
        first_set(keys.drop_first(), vars)
    }
}

/// Whether `f` answers as `vars` holds: for a key that `vars` holds, it
/// gives a value whose view is the one held, and for any other key none.
pub open spec fn answers_from<F, R>(f: F, vars: Map<Seq<u8>, <R::Value as View>::V>) -> bool where
    F: Fn(&NativeString) -> R,
    R: Answer,
    R::Value: View,
 {
    forall|k: &NativeString, out: R| #[trigger]
        call_ensures(f, (k,), out) ==> match out.given() {
            Some(v) => vars.contains_key(k@) && v@ == vars[k@],
            None => !vars.contains_key(k@),
        }
}

/// If `vars` holds a value for `keys[i]` and none for any key before it,
/// that value is the first one set.
pub proof fn lemma_first_set_at<V>(keys: Seq<Seq<u8>>, vars: Map<Seq<u8>, V>, i: int)
    requires
        0 <= i < keys.len(),
        vars.contains_key(keys[i]),
        forall|j: int| 0 <= j < i ==> !vars.contains_key(#[trigger] keys[j]),
    ensures
        first_set(keys, vars) == Some(vars[keys[i]]),
    decreases i,
{
    if i > 0 {
        assert(!vars.contains_key(keys[0]));
        let rest = keys.drop_first();
        assert forall|j: int| 0 <= j < i - 1 implies !vars.contains_key(#[trigger] rest[j]) by {
            assert(rest[j] == keys[j + 1]);
        }
        lemma_first_set_at(rest, vars, i - 1);
    }
}

/// If `vars` holds a value for none of `keys`, no value is the first one
/// set.
pub proof fn lemma_first_set_none<V>(keys: Seq<Seq<u8>>, vars: Map<Seq<u8>, V>)
    requires
        forall|j: int| 0 <= j < keys.len() ==> !vars.contains_key(#[trigger] keys[j]),
    ensures
        first_set(keys, vars) is None,
    decreases keys.len(),
{
    if keys.len() > 0 {
        assert(!vars.contains_key(keys[0]));
        let rest = keys.drop_first();
        assert forall|j: int| 0 <= j < rest.len() implies !vars.contains_key(#[trigger] rest[j]) by {
            assert(rest[j] == keys[j + 1]);
        }
        lemma_first_set_none(rest, vars);
    }
}

/// What is set for none of `keys` is decided by the keys after them.
pub proof fn lemma_first_set_skips<V>(
    keys: Seq<Seq<u8>>,
    more: Seq<Seq<u8>>,
    vars: Map<Seq<u8>, V>,
)
    requires
        forall|j: int| 0 <= j < keys.len() ==> !vars.contains_key(#[trigger] keys[j]),
    ensures
        first_set(keys + more, vars) == first_set(more, vars),
    decreases keys.len(),
{
    if keys.len() == 0 {
        assert(keys + more =~= more);
    } else {
        assert(!vars.contains_key(keys[0]));
        assert((keys + more)[0] == keys[0]);
        let rest = keys.drop_first();
        assert((keys + more).drop_first() =~= rest + more);
        assert forall|j: int| 0 <= j < rest.len() implies !vars.contains_key(#[trigger] rest[j]) by {
            assert(rest[j] == keys[j + 1]);
        }
        lemma_first_set_skips(rest, more, vars);
    }
}

/// Where `f` answers as `vars` holds, the first value given for `keys` is
/// the first one set among them.
pub proof fn lemma_first_given_is_first_set<F, R>(
    f: F,
    keys: Seq<Seq<u8>>,
    vars: Map<Seq<u8>, <R::Value as View>::V>,
    v: R::Value,
) where F: Fn(&NativeString) -> R, R: Answer, R::Value: View
    requires
        answers_from(f, vars),
        first_given(f, keys, v),
    ensures
        first_set(keys, vars) == Some(v@),
{
    let i = choose|i: int|
        0 <= i < keys.len() && #[trigger] may_give(f, keys[i], v) && none_given(f, keys.take(i));
    assert forall|j: int| 0 <= j < i implies !vars.contains_key(#[trigger] keys[j]) by {
        assert(may_skip(f, keys.take(i)[j]));
    }
    lemma_first_set_at(keys, vars, i);
}

/// Where `f` answers as `vars` holds and gives no value for `keys`, none
/// of them is set.
pub proof fn lemma_none_given_is_none_set<F, R>(
    f: F,
    keys: Seq<Seq<u8>>,
    vars: Map<Seq<u8>, <R::Value as View>::V>,
) where F: Fn(&NativeString) -> R, R: Answer, R::Value: View
    requires
        answers_from(f, vars),
        none_given(f, keys),
    ensures
        first_set(keys, vars) is None,
{
    assert forall|j: int| 0 <= j < keys.len() implies !vars.contains_key(#[trigger] keys[j]) by {
        assert(may_skip(f, keys[j]));
    }
    lemma_first_set_none(keys, vars);
}

/// A value that is the first given among `keys` stays so when `more` keys
/// follow them.
pub proof fn lemma_first_given_among_more<F, R>(
    f: F,
    keys: Seq<Seq<u8>>,
    more: Seq<Seq<u8>>,
    v: R::Value,
) where F: Fn(&NativeString) -> R, R: Answer
    requires
        first_given(f, keys, v),
    ensures
        first_given(f, keys + more, v),
{
    let i = choose|i: int|
        0 <= i < keys.len() && #[trigger] may_give(f, keys[i], v) && none_given(f, keys.take(i));
    assert((keys + more)[i] == keys[i]);
    assert((keys + more).take(i) =~= keys.take(i));
}

/// A value that is the first given among `more` is so among `keys` and
/// `more`, where none is given for `keys`.
pub proof fn lemma_first_given_after_none<F, R>(
    f: F,
    keys: Seq<Seq<u8>>,
    more: Seq<Seq<u8>>,
    v: R::Value,
) where F: Fn(&NativeString) -> R, R: Answer
    requires
        none_given(f, keys),
        first_given(f, more, v),
    ensures
        first_given(f, keys + more, v),
{
    let i = choose|i: int|
        0 <= i < more.len() && #[trigger] may_give(f, more[i], v) && none_given(f, more.take(i));
    let all = keys + more;
    let n = keys.len() as int;
    assert(all[n + i] == more[i]);
    assert forall|j: int| 0 <= j < n + i implies #[trigger] may_skip(f, all.take(n + i)[j]) by {
        if j < n {
            assert(all.take(n + i)[j] == keys[j]);
        } else {
            assert(all.take(n + i)[j] == more.take(i)[j - n]);
        }
    }
}

/// Where no value is given for `keys` and none for `more`, none is given
/// for the keys of both.
pub proof fn lemma_none_given_of_both<F, R>(f: F, keys: Seq<Seq<u8>>, more: Seq<Seq<u8>>) where
    F: Fn(&NativeString) -> R,
    R: Answer,

    requires
        none_given(f, keys),
        none_given(f, more),
    ensures
        none_given(f, keys + more),
{
    let all = keys + more;
    let n = keys.len() as int;
    assert forall|j: int| 0 <= j < all.len() implies #[trigger] may_skip(f, all[j]) by {
        if j < n {
            assert(all[j] == keys[j]);
        } else {
            assert(all[j] == more[j - n]);
        }
    }
}

} // verus!
