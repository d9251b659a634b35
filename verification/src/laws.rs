//! What holds of the editor's name in every environment.
use crate::environment::{Environment, Platform};
use crate::finder::{
    common_editor_text, editor_key, editor_of, native_editor_of, standard_keys, visual_key,
};
use crate::native::NativeString;
use crate::lookup::{
    answers_from, first_given, first_set, lemma_first_given_is_first_set, lemma_first_set_at,
    lemma_first_set_none, lemma_first_set_skips, lemma_none_given_is_none_set, none_given, Answer,
};
use vstd::prelude::*;
use vstd::utf8::{
    decode_utf8, decode_utf8_encode_utf8, encode_scalar, encode_utf8, valid_utf8,
};

verus! {

/// A lookup function that answers as `vars` holds decides as `vars` does:
/// what asking it for `keys` in turn comes to, with `fallback` where it
/// gives no value, is the first value set among the keys, or the fallback
/// where none is set.
pub proof fn law_lookup_function_decides<F, R>(
    f: F,
    keys: Seq<Seq<u8>>,
    vars: Map<Seq<u8>, <R::Value as View>::V>,
    fallback: <R::Value as View>::V,
    editor: R::Value,
) where F: Fn(&NativeString) -> R, R: Answer, R::Value: View
    requires
        answers_from(f, vars),
        first_given(f, keys, editor) || (none_given(f, keys) && editor@ == fallback),
    ensures
        editor@ == match first_set(keys, vars) {
            Some(value) => value,
            None => fallback,
        },
{
    if first_given(f, keys, editor) {
        lemma_first_given_is_first_set(f, keys, vars, editor);
    } else {
        lemma_none_given_is_none_set(f, keys, vars);
    }
}

/// An extra key that is set decides, whatever the keys after it hold.
proof fn lemma_first_set_extra<V>(
    extras: Seq<Seq<u8>>,
    more: Seq<Seq<u8>>,
    vars: Map<Seq<u8>, V>,
    i: int,
)
    requires
        0 <= i < extras.len(),
        vars.contains_key(extras[i]),
        forall|j: int| 0 <= j < i ==> !vars.contains_key(#[trigger] extras[j]),
    ensures
        first_set(extras + more, vars) == Some(vars[extras[i]]),
{
    let keys = extras + more;
    assert(keys[i] == extras[i]);
    assert forall|j: int| 0 <= j < i implies !vars.contains_key(#[trigger] keys[j]) by {
        assert(keys[j] == extras[j]);
    }
    lemma_first_set_at(keys, vars, i);
}

/// The extra keys are asked in the order in which they were given, and
/// before the standard keys: the first of them that can be read as Unicode
/// gives the editor's name, whatever the keys after it and the standard keys
/// hold.
pub proof fn law_extra_keys_come_first(extras: Seq<Seq<u8>>, env: Environment, i: int)
    requires
        0 <= i < extras.len(),
        env.unicode().contains_key(extras[i]),
        forall|j: int| 0 <= j < i ==> !env.unicode().contains_key(#[trigger] extras[j]),
    ensures
        editor_of(extras, env) == env.unicode()[extras[i]],
{
    lemma_first_set_extra(extras, standard_keys(), env.unicode(), i);
}

/// The extra keys are asked in the order in which they were given, and
/// before the standard keys: the first of them that is set gives the
/// editor's name in the native encoding, whatever the keys after it and the
/// standard keys hold.
pub proof fn law_extra_keys_come_first_os(extras: Seq<Seq<u8>>, env: Environment, i: int)
    requires
        0 <= i < extras.len(),
        env@.contains_key(extras[i]),
        forall|j: int| 0 <= j < i ==> !env@.contains_key(#[trigger] extras[j]),
    ensures
        native_editor_of(extras, env) == env@[extras[i]],
{
    lemma_first_set_extra(extras, standard_keys(), env@, i);
}

/// The standard keys are asked only after every extra key: where no extra
/// key can be read as Unicode, the editor's name is the one that a finder
/// without extra keys gives.
pub proof fn law_standard_keys_come_last(extras: Seq<Seq<u8>>, env: Environment)
    requires
        forall|j: int| 0 <= j < extras.len() ==> !env.unicode().contains_key(#[trigger] extras[j]),
    ensures
        editor_of(extras, env) == editor_of(Seq::empty(), env),
{
    lemma_first_set_skips(extras, standard_keys(), env.unicode());
    assert(Seq::<Seq<u8>>::empty() + standard_keys() =~= standard_keys());
}

/// The standard keys are asked only after every extra key: where no extra
/// key is set, the editor's name in the native encoding is the one that a
/// finder without extra keys gives.
pub proof fn law_standard_keys_come_last_os(extras: Seq<Seq<u8>>, env: Environment)
    requires
        forall|j: int| 0 <= j < extras.len() ==> !env@.contains_key(#[trigger] extras[j]),
    ensures
        native_editor_of(extras, env) == native_editor_of(Seq::empty(), env),
{
    lemma_first_set_skips(extras, standard_keys(), env@);
    assert(Seq::<Seq<u8>>::empty() + standard_keys() =~= standard_keys());
}

/// Of the standard keys `VISUAL` is asked before `EDITOR`: without extra
/// keys the editor's name is the text of `VISUAL` where that can be read as
/// Unicode, and else the text of `EDITOR` where that can.
pub proof fn law_visual_comes_before_editor(env: Environment)
    ensures
        env.unicode().contains_key(visual_key()) ==> editor_of(Seq::empty(), env)
            == env.unicode()[visual_key()],
        !env.unicode().contains_key(visual_key()) && env.unicode().contains_key(editor_key())
            ==> editor_of(Seq::empty(), env) == env.unicode()[editor_key()],
{
    let keys = standard_keys();
    assert(Seq::<Seq<u8>>::empty() + keys =~= keys);
    if env.unicode().contains_key(visual_key()) {
        lemma_first_set_at(keys, env.unicode(), 0);
    } else if env.unicode().contains_key(editor_key()) {
        lemma_first_set_at(keys, env.unicode(), 1);
    }
}

/// Of the standard keys `VISUAL` is asked before `EDITOR`: without extra
/// keys the editor's name in the native encoding is the value of `VISUAL`
/// where that is set, and else the value of `EDITOR` where that is.
pub proof fn law_visual_comes_before_editor_os(env: Environment)
    ensures
        env@.contains_key(visual_key()) ==> native_editor_of(Seq::empty(), env) == env@[visual_key()],
        !env@.contains_key(visual_key()) && env@.contains_key(editor_key()) ==> native_editor_of(
            Seq::empty(),
            env,
        ) == env@[editor_key()],
{
    let keys = standard_keys();
    assert(Seq::<Seq<u8>>::empty() + keys =~= keys);
    if env@.contains_key(visual_key()) {
        lemma_first_set_at(keys, env@, 0);
    } else if env@.contains_key(editor_key()) {
        lemma_first_set_at(keys, env@, 1);
    }
}

/// Where none of the keys, extra or standard, can be read as Unicode, the
/// editor's name is the common editor of the platform.
pub proof fn law_fallback_when_nothing_is_readable(extras: Seq<Seq<u8>>, env: Environment)
    requires
        forall|j: int| 0 <= j < extras.len() ==> !env.unicode().contains_key(#[trigger] extras[j]),
        !env.unicode().contains_key(visual_key()),
        !env.unicode().contains_key(editor_key()),
    ensures
        editor_of(extras, env) == common_editor_text(env.platform()),
{
    let keys = extras + standard_keys();
    assert forall|j: int| 0 <= j < keys.len() implies !env.unicode().contains_key(
        #[trigger] keys[j],
    ) by {
        if j < extras.len() {
            assert(keys[j] == extras[j]);
        } else {
            assert(keys[j] == standard_keys()[j - extras.len()]);
        }
    }
    lemma_first_set_none(keys, env.unicode());
}

/// Where none of the keys, extra or standard, is set, the editor's name in
/// the native encoding is the common editor of the platform.
pub proof fn law_fallback_when_nothing_is_set(extras: Seq<Seq<u8>>, env: Environment)
    requires
        forall|j: int| 0 <= j < extras.len() ==> !env@.contains_key(#[trigger] extras[j]),
        !env@.contains_key(visual_key()),
        !env@.contains_key(editor_key()),
    ensures
        native_editor_of(extras, env) == encode_utf8(common_editor_text(env.platform())),
{
    let keys = extras + standard_keys();
    assert forall|j: int| 0 <= j < keys.len() implies !env@.contains_key(#[trigger] keys[j]) by {
        if j < extras.len() {
            assert(keys[j] == extras[j]);
        } else {
            assert(keys[j] == standard_keys()[j - extras.len()]);
        }
    }
    lemma_first_set_none(keys, env@);
}

/// Where every value that `keys` are set to is valid Unicode, the first
/// text among them is the text of the first value.
proof fn lemma_first_text_is_first_value(keys: Seq<Seq<u8>>, env: Environment)
    requires
        forall|j: int|
            0 <= j < keys.len() && env@.contains_key(#[trigger] keys[j]) ==> valid_utf8(
                env@[keys[j]],
            ),
    ensures
        match first_set(keys, env@) {
            Some(value) => first_set(keys, env.unicode()) == Some(decode_utf8(value))
                && valid_utf8(value),
            None => first_set(keys, env.unicode()) is None,
        },
    decreases keys.len(),
{
    if keys.len() > 0 {
        if env@.contains_key(keys[0]) {
            assert(valid_utf8(env@[keys[0]]));
        } else {
            let rest = keys.drop_first();
            assert forall|j: int| 0 <= j < rest.len() && env@.contains_key(
                #[trigger] rest[j],
            ) implies valid_utf8(env@[rest[j]]) by {
                assert(rest[j] == keys[j + 1]);
            }
            lemma_first_text_is_first_value(rest, env);
        }
    }
}

/// The two names of the editor are one name where text can be read: if
/// every key, extra or standard, that is set holds valid Unicode, the name
/// in the native encoding is the encoding of the name as Unicode text.
pub proof fn law_native_name_encodes_text(extras: Seq<Seq<u8>>, env: Environment)
    requires
        forall|j: int|
            0 <= j < extras.len() && env@.contains_key(#[trigger] extras[j]) ==> valid_utf8(
                env@[extras[j]],
            ),
        env@.contains_key(visual_key()) ==> valid_utf8(env@[visual_key()]),
        env@.contains_key(editor_key()) ==> valid_utf8(env@[editor_key()]),
    ensures
        native_editor_of(extras, env) == encode_utf8(editor_of(extras, env)),
{
    let keys = extras + standard_keys();
    assert forall|j: int| 0 <= j < keys.len() && env@.contains_key(
        #[trigger] keys[j],
    ) implies valid_utf8(env@[keys[j]]) by {
        if j < extras.len() {
            assert(keys[j] == extras[j]);
        } else {
            assert(keys[j] == standard_keys()[j - extras.len()]);
        }
    }
    lemma_first_text_is_first_value(keys, env);
    let found = first_set(keys, env@);
    if found is Some {
        decode_utf8_encode_utf8(found->0);
    }
}

/// The common editor of either platform has a name that is not empty.
pub proof fn law_common_editor_is_named(platform: Platform)
    ensures
        common_editor_text(platform).len() > 0,
        encode_utf8(common_editor_text(platform)).len() > 0,
{
    reveal_strlit("vi");
    reveal_strlit("notepad.exe");
    let text = common_editor_text(platform);
    assert(text.len() > 0);
    assert(encode_utf8(text) == encode_scalar(text[0] as u32) + encode_utf8(text.drop_first()));
    assert(encode_scalar(text[0] as u32).len() > 0);
}

/// The editor's name is never empty, unless the variable that decides it
/// is set to the empty text.
pub proof fn law_editor_name_is_not_empty(extras: Seq<Seq<u8>>, env: Environment)
    requires
        first_set(extras + standard_keys(), env.unicode()) != Some(Seq::<char>::empty()),
    ensures
        editor_of(extras, env).len() > 0,
{
    law_common_editor_is_named(env.platform());
    let found = first_set(extras + standard_keys(), env.unicode());
    if found is Some {
        assert(found->0.len() != 0) by {
            if found->0.len() == 0 {
                assert(found->0 =~= Seq::<char>::empty());
            }
        }
    }
}

/// The editor's name in the native encoding is never empty, unless the
/// variable that decides it is set to the empty value.
pub proof fn law_editor_name_os_is_not_empty(extras: Seq<Seq<u8>>, env: Environment)
    requires
        first_set(extras + standard_keys(), env@) != Some(Seq::<u8>::empty()),
    ensures
        native_editor_of(extras, env).len() > 0,
{
    law_common_editor_is_named(env.platform());
    let found = first_set(extras + standard_keys(), env@);
    if found is Some {
        assert(found->0.len() != 0) by {
            if found->0.len() == 0 {
                assert(found->0 =~= Seq::<u8>::empty());
            }
        }
    }
}

} // verus!
