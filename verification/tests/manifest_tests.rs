use micropaas::errors::DeployError;
use micropaas::manifest::patch_values;

fn chars(s: &str) -> Vec<char> {
    s.chars().collect()
}

fn string_of(v: &[char]) -> String {
    v.iter().collect()
}

const VALUES: &str = "\
app-template:
  controllers:
    main:
      containers:
        main:
          image:
            repository: registry.example.com/blog
            tag: oldsha
          env:
            TZ: Etc/UTC
";

const VALUES_PATCHED: &str = "\
app-template:
  controllers:
    main:
      containers:
        main:
          image:
            repository: registry.example.com/blog
            tag: newsha
          env:
            TZ: Etc/UTC
";

#[test]
fn patch_rewrites_only_the_tag_leaf() {
    let (out, changed) = patch_values(&chars(VALUES), &chars("newsha")).unwrap();
    assert!(changed);
    assert_eq!(string_of(&out), VALUES_PATCHED);
}

#[test]
fn patch_twice_is_a_noop_second_time() {
    let (once, changed_first) = patch_values(&chars(VALUES), &chars("newsha")).unwrap();
    assert!(changed_first);
    let (twice, changed_second) = patch_values(&once, &chars("newsha")).unwrap();
    assert!(!changed_second);
    assert_eq!(string_of(&twice), string_of(&once));
}

#[test]
fn patch_with_same_tag_changes_nothing() {
    let (out, changed) = patch_values(&chars(VALUES), &chars("oldsha")).unwrap();
    assert!(!changed);
    assert_eq!(string_of(&out), VALUES);
}

#[test]
fn comments_and_blank_lines_are_preserved() {
    let text = "\
# deployment values

app-template:
  controllers:
    main:
      containers:
        main:
          image:
            tag: a1
";
    let (out, changed) = patch_values(&chars(text), &chars("b2")).unwrap();
    assert!(changed);
    assert_eq!(
        string_of(&out),
        "\
# deployment values

app-template:
  controllers:
    main:
      containers:
        main:
          image:
            tag: b2
"
    );
}

#[test]
fn absent_path_leaves_document_unchanged() {
    let text = "\
other:
  thing: 1
";
    let (out, changed) = patch_values(&chars(text), &chars("newsha")).unwrap();
    assert!(!changed);
    assert_eq!(string_of(&out), text);
}

#[test]
fn sibling_keys_named_like_path_segments_are_not_confused() {
    // a top-level `image.tag` must not be patched: only the nested path counts
    let text = "\
image:
  tag: decoy
app-template:
  controllers:
    main:
      containers:
        main:
          image:
            tag: real
";
    let (out, changed) = patch_values(&chars(text), &chars("fresh")).unwrap();
    assert!(changed);
    let out = string_of(&out);
    assert!(out.contains("  tag: decoy\n"));
    assert!(out.contains("            tag: fresh\n"));
}

#[test]
fn unparsable_document_is_a_parse_error() {
    // a colon not followed by a space is not an entry, and the line is not
    // opaque either, since it holds a colon
    let text = "\
app-template:
  image:tag
";
    let r = patch_values(&chars(text), &chars("newsha"));
    assert!(matches!(r, Err(DeployError::ManifestParse)));
    // an empty key is malformed too
    let r = patch_values(&chars(": x\n"), &chars("newsha"));
    assert!(matches!(r, Err(DeployError::ManifestParse)));
}

#[test]
fn list_items_and_scalar_bodies_are_carried_through() {
    let text = "\
app-template:
  controllers:
    main:
      containers:
        main:
          image:
            tag: old
          args:
            - serve
            - 8080
          motd: |
            hello world
";
    let (out, changed) = patch_values(&chars(text), &chars("new")).unwrap();
    assert!(changed);
    let out = string_of(&out);
    assert!(out.contains("            tag: new\n"));
    assert!(out.contains("            - serve\n"));
    assert!(out.contains("            - 8080\n"));
    assert!(out.contains("            hello world\n"));
}

#[test]
fn tag_that_opens_a_block_is_left_alone() {
    let text = "\
app-template:
  controllers:
    main:
      containers:
        main:
          image:
            tag:
              nested: oops
";
    let (out, changed) = patch_values(&chars(text), &chars("newsha")).unwrap();
    assert!(!changed);
    assert_eq!(string_of(&out), text);
}

#[test]
fn missing_final_newline_is_normalized() {
    let text = "app-template:\n  controllers:\n    main:\n      containers:\n        main:\n          image:\n            tag: x";
    let (out, changed) = patch_values(&chars(text), &chars("y")).unwrap();
    assert!(changed);
    assert!(string_of(&out).ends_with("tag: y\n"));
}

#[test]
fn empty_document_round_trips() {
    let (out, changed) = patch_values(&chars(""), &chars("t")).unwrap();
    assert!(!changed);
    assert_eq!(string_of(&out), "");
}
