use find_editor::{
    editor_name, editor_name_os, Environment, Finder, NativeString, Platform, VarError,
};

const FALLBACK: &str = "fallback";

fn unicode_lookup(
    defined_key: &'static str,
    value: &'static str,
) -> impl Copy + Fn(&NativeString) -> Result<String, ()> {
    move |key: &NativeString| {
        if *key == NativeString::from_str(defined_key) {
            Ok(String::from(value))
        } else {
            Err(())
        }
    }
}

fn native_lookup(
    defined_key: &'static str,
    value: &'static str,
) -> impl Copy + Fn(&NativeString) -> Option<NativeString> {
    move |key: &NativeString| {
        if *key == NativeString::from_str(defined_key) {
            Some(NativeString::from_str(value))
        } else {
            None
        }
    }
}

fn native(text: &str) -> NativeString {
    NativeString::from_str(text)
}

fn finder_with(keys: &[&str]) -> Finder {
    Finder::with_extra_environment_variables(keys.iter().map(|key| native(key)).collect())
}

fn environment(platform: Platform, vars: &[(&str, &str)]) -> Environment {
    let mut env = Environment::new(platform);
    for (key, value) in vars {
        env.set(native(key), native(value));
    }
    env
}

#[test]
fn test_editor_name_visual_defined() {
    let finder = finder_with(&[]);
    let actual = finder.editor_name_inner(unicode_lookup("VISUAL", "foo"), FALLBACK);
    assert_eq!("foo", actual);
}

#[test]
fn test_editor_name_editor_defined() {
    let finder = finder_with(&[]);
    let actual = finder.editor_name_inner(unicode_lookup("EDITOR", "bar"), FALLBACK);
    assert_eq!("bar", actual);
}

#[test]
fn test_editor_name_unknown_key_defined() {
    let finder = finder_with(&[]);
    let actual = finder.editor_name_inner(unicode_lookup("--UNKNOWN--", "foo"), FALLBACK);
    assert_eq!(FALLBACK, actual);
}

#[test]
fn test_editor_name_custom_editor_defined() {
    let finder = finder_with(&["MY_EXTRA"]);
    let actual = finder.editor_name_inner(unicode_lookup("MY_EXTRA", "baz"), FALLBACK);
    assert_eq!("baz", actual);
}

#[test]
fn test_editor_name_os_visual_defined() {
    let finder = finder_with(&[]);
    let actual = finder.editor_name_os_inner(native_lookup("VISUAL", "foo"), FALLBACK);
    assert_eq!(NativeString::from_str("foo"), actual);
}

#[test]
fn test_editor_name_os_editor_defined() {
    let finder = finder_with(&[]);
    let actual = finder.editor_name_os_inner(native_lookup("EDITOR", "bar"), FALLBACK);
    assert_eq!(NativeString::from_str("bar"), actual);
}

#[test]
fn test_editor_name_os_unknown_key_defined() {
    let finder = finder_with(&[]);
    let actual = finder.editor_name_os_inner(native_lookup("--UNKNOWN--", "foo"), FALLBACK);
    assert_eq!(NativeString::from_str(FALLBACK), actual);
}

#[test]
fn test_editor_name_os_custom_editor_defined() {
    let finder = finder_with(&["MY_EXTRA"]);
    let actual = finder.editor_name_os_inner(native_lookup("MY_EXTRA", "baz"), FALLBACK);
    assert_eq!(NativeString::from_str("baz"), actual);
}

#[test]
fn inner_lookup_asks_extra_keys_then_visual_then_editor() {
    let asked = std::cell::RefCell::new(Vec::new());
    let f = |key: &NativeString| -> Result<String, ()> {
        asked.borrow_mut().push(key.clone());
        Err(())
    };
    let finder = finder_with(&["FIRST", "SECOND"]);
    let actual = finder.editor_name_inner(&f, FALLBACK);
    assert_eq!(FALLBACK, actual);
    assert_eq!(
        *asked.borrow(),
        [native("FIRST"), native("SECOND"), native("VISUAL"), native("EDITOR")]
    );
    assert_eq!(*asked.borrow(), finder.keys());
}

#[test]
fn inner_lookup_stops_at_the_first_value() {
    let asked = std::cell::RefCell::new(Vec::new());
    let f = |key: &NativeString| -> Option<NativeString> {
        asked.borrow_mut().push(key.clone());
        if *key == native("SECOND") {
            Some(NativeString::from_str("second"))
        } else {
            None
        }
    };
    let finder = finder_with(&["FIRST", "SECOND", "THIRD"]);
    let actual = finder.editor_name_os_inner(&f, FALLBACK);
    assert_eq!(NativeString::from_str("second"), actual);
    assert_eq!(*asked.borrow(), [native("FIRST"), native("SECOND")]);
}

#[test]
fn find_functions_tell_extra_keys_from_standard_keys() {
    let finder = finder_with(&["MY_EXTRA"]);
    let visual = unicode_lookup("VISUAL", "foo");
    assert_eq!(finder.find_extra_editor_name(visual), None);
    assert_eq!(Finder::find_editor_name(visual), Some(String::from("foo")));
    let extra = native_lookup("MY_EXTRA", "baz");
    assert_eq!(finder.find_extra_editor_name_os(extra), Some(NativeString::from_str("baz")));
    assert_eq!(Finder::find_editor_name_os(extra), None);
}

#[test]
fn visual_is_returned_when_only_visual_is_set() {
    let env = environment(Platform::Other, &[("VISUAL", "foo")]);
    assert_eq!(Finder::new().editor_name(&env), "foo");
    assert_eq!(editor_name(&env), "foo");
    assert_eq!(editor_name_os(&env), NativeString::from_str("foo"));
}

#[test]
fn editor_is_returned_when_only_editor_is_set() {
    let env = environment(Platform::Other, &[("EDITOR", "bar")]);
    assert_eq!(Finder::new().editor_name(&env), "bar");
    assert_eq!(Finder::new().editor_name_os(&env), NativeString::from_str("bar"));
}

#[test]
fn visual_wins_over_editor() {
    let env = environment(Platform::Other, &[("EDITOR", "bar"), ("VISUAL", "foo")]);
    assert_eq!(editor_name(&env), "foo");
    assert_eq!(editor_name_os(&env), NativeString::from_str("foo"));
}

#[test]
fn extra_key_wins_over_visual_and_editor() {
    let env = environment(
        Platform::Other,
        &[("VISUAL", "foo"), ("EDITOR", "bar"), ("MY_EXTRA", "baz")],
    );
    let finder = finder_with(&["MY_EXTRA"]);
    assert_eq!(finder.editor_name(&env), "baz");
    assert_eq!(finder.editor_name_os(&env), NativeString::from_str("baz"));
    assert_eq!(editor_name(&env), "foo");
}

#[test]
fn extra_keys_are_asked_in_the_order_given() {
    let env = environment(Platform::Other, &[("A", "first"), ("B", "second"), ("VISUAL", "foo")]);
    let a_then_b = finder_with(&["A", "B"]);
    let b_then_a = finder_with(&["B", "A"]);
    let c_then_b = finder_with(&["C", "B"]);
    let only_c = finder_with(&["C"]);
    assert_eq!(a_then_b.editor_name(&env), "first");
    assert_eq!(b_then_a.editor_name(&env), "second");
    assert_eq!(c_then_b.editor_name(&env), "second");
    assert_eq!(only_c.editor_name(&env), "foo");
    assert_eq!(only_c.editor_name(&env), Finder::new().editor_name(&env));
}

#[test]
fn fallback_is_vi_where_nothing_is_set() {
    let env = Environment::new(Platform::Other);
    assert_eq!(editor_name(&env), "vi");
    assert_eq!(editor_name_os(&env), NativeString::from_str("vi"));
    let finder = finder_with(&["MY_EXTRA"]);
    assert_eq!(finder.editor_name(&env), "vi");
}

#[test]
fn fallback_is_notepad_on_windows_where_nothing_is_set() {
    let env = Environment::new(Platform::Windows);
    assert_eq!(editor_name(&env), "notepad.exe");
    assert_eq!(editor_name_os(&env), NativeString::from_str("notepad.exe"));
    assert_eq!(Finder::common_editor(Platform::Windows), "notepad.exe");
    assert_eq!(Finder::common_editor(Platform::Other), "vi");
}

#[test]
fn unrelated_variables_do_not_matter() {
    let env = environment(Platform::Other, &[("PATH", "/bin"), ("HOME", "/root")]);
    assert_eq!(editor_name(&env), "vi");
}

#[test]
fn result_is_not_empty_where_no_variable_is_empty() {
    let envs = [
        Environment::new(Platform::Other),
        Environment::new(Platform::Windows),
        environment(Platform::Other, &[("VISUAL", "a")]),
        environment(Platform::Windows, &[("EDITOR", "b")]),
    ];
    for env in &envs {
        assert!(!editor_name(env).is_empty());
        assert!(!editor_name_os(env).is_empty());
    }
}

#[test]
fn native_name_is_the_text_encoded_where_values_are_unicode() {
    let finder = finder_with(&["MY_EXTRA"]);
    let envs = [
        Environment::new(Platform::Windows),
        environment(Platform::Other, &[("EDITOR", "nano -w")]),
        environment(Platform::Other, &[("MY_EXTRA", "\u{e9}diteur"), ("VISUAL", "foo")]),
    ];
    for env in &envs {
        let text = finder.editor_name(env);
        assert_eq!(finder.editor_name_os(env), NativeString::from_str(&text));
    }
}

#[test]
fn empty_value_counts_as_set() {
    let env = environment(Platform::Other, &[("VISUAL", ""), ("EDITOR", "bar")]);
    assert_eq!(editor_name(&env), "");
    assert!(editor_name_os(&env).is_empty());
}

#[test]
fn value_that_is_not_unicode_is_skipped_as_text_and_kept_as_native() {
    let mut env = Environment::new(Platform::Other);
    env.set(native("VISUAL"), NativeString::from_bytes(vec![0x66, 0xff, 0x6f]));
    env.set(native("EDITOR"), NativeString::from_str("bar"));
    assert_eq!(editor_name(&env), "bar");
    assert_eq!(editor_name_os(&env), NativeString::from_bytes(vec![0x66, 0xff, 0x6f]));
    env.set(native("EDITOR"), NativeString::from_bytes(vec![0xc0, 0x80]));
    assert_eq!(editor_name(&env), "vi");
}

#[test]
fn environment_answers_from_what_was_set() {
    let mut env = Environment::new(Platform::Windows);
    assert_eq!(env.platform(), Platform::Windows);
    assert_eq!(env.var_os(&native("VISUAL")), None);
    assert_eq!(env.var(&native("VISUAL")), Err(VarError::NotPresent));
    env.set(native("VISUAL"), NativeString::from_str("foo"));
    env.set(native("EDITOR"), NativeString::from_bytes(vec![0x80]));
    assert_eq!(env.var_os(&native("VISUAL")), Some(NativeString::from_str("foo")));
    assert_eq!(env.var(&native("VISUAL")), Ok(String::from("foo")));
    assert_eq!(
        env.var(&native("EDITOR")),
        Err(VarError::NotUnicode(NativeString::from_bytes(vec![0x80])))
    );
    assert_eq!(env.var(&native("VISUA")), Err(VarError::NotPresent));
    assert_eq!(env.var(&native("VISUAL2")), Err(VarError::NotPresent));
    assert_eq!(env.var(&native("visual")), Err(VarError::NotPresent));
    env.set(native("VISUAL"), NativeString::from_str("again"));
    assert_eq!(env.var(&native("VISUAL")), Ok(String::from("again")));
    assert_eq!(env.platform(), Platform::Windows);
}

#[test]
fn native_string_keeps_its_bytes() {
    let text = NativeString::from_str("h\u{e9}llo");
    assert_eq!(text.as_bytes(), &vec![0x68, 0xc3, 0xa9, 0x6c, 0x6c, 0x6f]);
    assert_eq!(text.to_unicode(), Some(String::from("h\u{e9}llo")));
    assert_eq!(text.clone(), text);
    assert!(!text.is_empty());
    assert!(NativeString::from_str("").is_empty());
    assert_eq!(NativeString::from_str("").to_unicode(), Some(String::new()));
    let raw = NativeString::from_bytes(vec![0x68, 0xc3]);
    assert_eq!(raw.to_unicode(), None);
    assert_eq!(raw.into_bytes(), vec![0x68, 0xc3]);
    let surrogate = NativeString::from_bytes(vec![0xed, 0xa0, 0x80]);
    assert_eq!(surrogate.to_unicode(), None);
}

#[test]
fn key_that_is_not_unicode_is_asked_for_like_any_other() {
    let key = NativeString::from_bytes(vec![0x4d, 0xff, 0x59]);
    let finder = Finder::with_extra_environment_variables(vec![key.clone()]);
    let mut env = environment(Platform::Other, &[("VISUAL", "foo")]);
    assert_eq!(finder.editor_name(&env), "foo");
    env.set(key.clone(), native("baz"));
    assert_eq!(finder.editor_name(&env), "baz");
    assert_eq!(finder.editor_name_os(&env), native("baz"));
    assert_eq!(finder.keys(), [key, native("VISUAL"), native("EDITOR")]);
}

#[test]
fn keys_are_the_extra_keys_and_then_the_standard_keys() {
    assert_eq!(Finder::new().keys(), [native("VISUAL"), native("EDITOR")]);
    assert_eq!(
        finder_with(&["B", "A"]).keys(),
        [native("B"), native("A"), native("VISUAL"), native("EDITOR")]
    );
}

#[test]
fn same_as_compares_the_bytes() {
    assert!(native("VISUAL").same_as(&native("VISUAL")));
    assert!(!native("VISUAL").same_as(&native("VISUAl")));
    assert!(!native("VISUAL").same_as(&native("VISUA")));
    assert!(native("").same_as(&NativeString::from_bytes(Vec::new())));
}

#[test]
fn default_finder_has_no_extra_keys() {
    let env = environment(Platform::Other, &[("MY_EXTRA", "baz")]);
    assert_eq!(Finder::default().editor_name(&env), "vi");
    assert_eq!(Finder::new().editor_name(&env), "vi");
}
