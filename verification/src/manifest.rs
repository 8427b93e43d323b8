//! The GitOps values manifest: a YAML document of nested block mappings whose
//! image-tag leaf the deploy stage rewrites.
//!
//! The document model is the sequence of its lines. An entry line is
//! `indent spaces, key, ':'`, optionally followed by `' '` and a scalar
//! value; an entry without a value opens a nested block, indicated by deeper
//! indentation on the following entries. Blank lines and comment lines are
//! carried through untouched. The patch locates the fixed field path
//! `app-template.controllers.main.containers.main.image.tag` and rewrites
//! only that leaf; every other line is preserved exactly.

use vstd::prelude::*;
use crate::errors::DeployError;
use crate::text::{find_char, leading_spaces, lines_of, views_of};
use crate::text::{chars_eq, split_lines, str_to_chars, sub_chars};
use crate::text::{lemma_find_char_is, lemma_find_char_none, lemma_leading_spaces, lemma_leading_spaces_is};

verus! {

/// Mathematical model of one manifest line.
pub enum LineModel {
    Entry { indent: nat, key: Seq<char>, value: Option<Seq<char>> },
    Other { text: Seq<char> },
}

/// A key is non-empty, does not begin like indentation or a comment, and
/// contains neither a colon nor a newline.
pub open spec fn valid_key(k: Seq<char>) -> bool {
    &&& k.len() > 0
    &&& k[0] != ' '
    &&& k[0] != '#'
    &&& !k.contains(':')
    &&& !k.contains('\n')
}

/// A scalar value is a single line.
pub open spec fn valid_value(v: Seq<char>) -> bool {
    !v.contains('\n')
}

/// A non-entry line is blank (possibly only spaces), a comment, or any other
/// colon-less text (a sequence item, a block-scalar body line); such lines
/// are carried through verbatim and never take part in the path search.
pub open spec fn valid_other(t: Seq<char>) -> bool {
    &&& !t.contains('\n')
    &&& (leading_spaces(t) == t.len() || t[leading_spaces(t) as int] == '#' || !t.contains(':'))
}

pub open spec fn valid_line(l: LineModel) -> bool {
    match l {
        LineModel::Entry { key, value, .. } => valid_key(key) && (match value {
            Some(v) => valid_value(v),
            None => true,
        }),
        LineModel::Other { text } => valid_other(text),
    }
}

pub open spec fn valid_lines(ls: Seq<LineModel>) -> bool {
    forall|i: int| 0 <= i < ls.len() ==> valid_line(#[trigger] ls[i])
}

/// `n` space characters.
pub open spec fn spaces(n: nat) -> Seq<char>
    decreases n,
{
    if n == 0 {
        Seq::empty()
    } else {
        seq![' '] + spaces((n - 1) as nat)
    }
}

pub proof fn lemma_spaces(n: nat)
    ensures
        spaces(n).len() == n,
        forall|j: int| 0 <= j < n ==> spaces(n)[j] == ' ',
    decreases n,
{
    if n > 0 {
        lemma_spaces((n - 1) as nat);
    }
}

/// One line's characters, without the terminating newline.
pub open spec fn render_body(l: LineModel) -> Seq<char> {
    match l {
        LineModel::Entry { indent, key, value } => match value {
            None => spaces(indent) + key + seq![':'],
            Some(v) => spaces(indent) + key + seq![':', ' '] + v,
        },
        LineModel::Other { text } => text,
    }
}

/// One line's characters, newline-terminated.
pub open spec fn render_line(l: LineModel) -> Seq<char> {
    render_body(l) + seq!['\n']
}

/// The whole document's characters.
pub open spec fn render_lines(ls: Seq<LineModel>) -> Seq<char>
    decreases ls.len(),
{
    if ls.len() == 0 {
        Seq::empty()
    } else {
        render_line(ls[0]) + render_lines(ls.drop_first())
    }
}

/// Classification of one newline-free line of text. An entry needs a
/// non-empty key, a colon, and a space before any value; blank lines,
/// comments and colon-less lines pass through opaquely; what remains (an
/// empty key, or a colon not followed by a space) does not parse.
pub open spec fn parse_line(s: Seq<char>) -> Option<LineModel> {
    let n = leading_spaces(s);
    if n == s.len() {
        Some(LineModel::Other { text: s })
    } else if s[n as int] == '#' {
        Some(LineModel::Other { text: s })
    } else {
        match find_char(s, ':') {
            None => Some(LineModel::Other { text: s }),
            Some(k) => if k <= n {
                None
            } else {
                let key = s.subrange(n as int, k);
                let rest = s.subrange(k + 1, s.len() as int);
                if rest.len() == 0 {
                    Some(LineModel::Entry { indent: n, key, value: None })
                } else if rest[0] == ' ' {
                    Some(LineModel::Entry { indent: n, key, value: Some(rest.drop_first()) })
                } else {
                    None
                }
            },
        }
    }
}

pub open spec fn parse_bodies(bodies: Seq<Seq<char>>) -> Option<Seq<LineModel>>
    decreases bodies.len(),
{
    if bodies.len() == 0 {
        Some(Seq::empty())
    } else {
        match parse_line(bodies[0]) {
            None => None,
            Some(l) => match parse_bodies(bodies.drop_first()) {
                None => None,
                Some(rest) => Some(seq![l] + rest),
            },
        }
    }
}

/// The document a text parses to, if it parses.
pub open spec fn parse_doc(s: Seq<char>) -> Option<Seq<LineModel>> {
    parse_bodies(lines_of(s))
}

/// A valid line parses back from its rendering.
pub proof fn lemma_parse_render_body(l: LineModel)
    requires
        valid_line(l),
    ensures
        parse_line(render_body(l)) == Some(l),
{
    match l {
        LineModel::Other { text } => {
            let n = leading_spaces(text);
            lemma_leading_spaces(text);
            if n < text.len() && text[n as int] != '#' {
                assert(!text.contains(':'));
                assert forall|j: int| 0 <= j < text.len() implies text[j] != ':' by {
                    if text[j] == ':' {
                        assert(text.contains(':'));
                    }
                }
                lemma_find_char_none(text, ':');
            }
            assert(parse_line(text) == Some(l));
        },
        LineModel::Entry { indent, key, value } => {
            let body = render_body(l);
            lemma_spaces(indent);
            let p = indent + key.len();
            assert forall|j: int| 0 <= j < key.len() implies key[j] != ':' && key[j] != '\n' by {
                if key[j] == ':' {
                    assert(key.contains(':'));
                }
                if key[j] == '\n' {
                    assert(key.contains('\n'));
                }
            }
            // the maximal space prefix is exactly the indent
            assert(body[indent as int] == key[0]);
            assert forall|j: int| 0 <= j < indent implies body[j] == ' ' by {
                assert(body[j] == spaces(indent)[j]);
            }
            lemma_leading_spaces_is(body, indent);
            assert(leading_spaces(body) == indent);
            assert(body[indent as int] != '#');
            // the first colon sits right after the key
            assert(body[p as int] == ':');
            assert forall|j: int| 0 <= j < p implies body[j] != ':' by {
                if j < indent {
                    assert(body[j] == ' ');
                } else {
                    assert(body[j] == key[j - indent]);
                }
            }
            lemma_find_char_is(body, ':', p as int);
            assert(body.subrange(indent as int, p as int) =~= key);
            match value {
                None => {
                    assert(body.subrange(p + 1 as int, body.len() as int) =~= Seq::<char>::empty());
                    assert(parse_line(body) == Some(l));
                },
                Some(v) => {
                    let rest = body.subrange(p + 1 as int, body.len() as int);
                    assert(rest =~= seq![' '] + v);
                    assert(rest[0] == ' ');
                    assert(rest.drop_first() =~= v);
                    assert(parse_line(body) == Some(l));
                },
            }
        },
    }
}

/// A valid line's rendering is newline-free before its terminator.
pub proof fn lemma_render_body_no_newline(l: LineModel)
    requires
        valid_line(l),
    ensures
        !render_body(l).contains('\n'),
{
    let body = render_body(l);
    match l {
        LineModel::Other { text } => {
            if body.contains('\n') {
                let j = choose|j: int| 0 <= j < body.len() && body[j] == '\n';
                assert(text.contains('\n'));
            }
        },
        LineModel::Entry { indent, key, value } => {
            lemma_spaces(indent);
            assert forall|j: int| 0 <= j < key.len() implies key[j] != '\n' by {
                if key[j] == '\n' {
                    assert(key.contains('\n'));
                }
            }
            if body.contains('\n') {
                let j = choose|j: int| 0 <= j < body.len() && body[j] == '\n';
                match value {
                    None => {
                        assert(false);
                    },
                    Some(v) => {
                        assert forall|i: int| 0 <= i < v.len() implies v[i] != '\n' by {
                            if v[i] == '\n' {
                                assert(v.contains('\n'));
                            }
                        }
                        assert(false);
                    },
                }
            }
        },
    }
}

/// Splitting a rendered document at newlines yields exactly the line bodies.
pub proof fn lemma_lines_of_render(ls: Seq<LineModel>)
    requires
        valid_lines(ls),
    ensures
        lines_of(render_lines(ls)) == ls.map_values(|l: LineModel| render_body(l)),
    decreases ls.len(),
{
    let bodies = ls.map_values(|l: LineModel| render_body(l));
    if ls.len() == 0 {
        assert(lines_of(render_lines(ls)) =~= bodies);
    } else {
        let head = ls[0];
        let body0 = render_body(head);
        let doc = render_lines(ls);
        let rest_doc = render_lines(ls.drop_first());
        assert(doc == (body0 + seq!['\n']) + rest_doc);
        lemma_render_body_no_newline(head);
        assert(doc[body0.len() as int] == '\n');
        assert forall|j: int| 0 <= j < body0.len() implies doc[j] != '\n' by {
            assert(doc[j] == body0[j]);
            if body0[j] == '\n' {
                assert(body0.contains('\n'));
            }
        }
        lemma_find_char_is(doc, '\n', body0.len() as int);
        assert(doc.len() > 0) by {
            assert(doc.len() >= body0.len() + 1);
        }
        assert(doc.subrange(0, body0.len() as int) =~= body0);
        assert(doc.subrange(body0.len() + 1 as int, doc.len() as int) =~= rest_doc);
        lemma_lines_of_render(ls.drop_first());
        assert(lines_of(doc) == seq![body0] + lines_of(rest_doc));
        assert(ls.drop_first().map_values(|l: LineModel| render_body(l)) =~= bodies.drop_first());
        assert(lines_of(doc) =~= bodies);
    }
}

/// The bodies of valid lines parse back to those lines.
pub proof fn lemma_parse_bodies_of_render(ls: Seq<LineModel>)
    requires
        valid_lines(ls),
    ensures
        parse_bodies(ls.map_values(|l: LineModel| render_body(l))) == Some(ls),
    decreases ls.len(),
{
    let bodies = ls.map_values(|l: LineModel| render_body(l));
    if ls.len() == 0 {
        assert(parse_bodies(bodies) == Some(Seq::<LineModel>::empty()));
        assert(ls =~= Seq::<LineModel>::empty());
    } else {
        lemma_parse_render_body(ls[0]);
        lemma_parse_bodies_of_render(ls.drop_first());
        assert(bodies.drop_first() =~= ls.drop_first().map_values(|l: LineModel| render_body(l)));
        assert(parse_bodies(bodies) == Some(seq![ls[0]] + ls.drop_first()));
        assert(seq![ls[0]] + ls.drop_first() =~= ls);
    }
}

/// Round trip: a rendered valid document parses back to the same lines.
pub proof fn lemma_parse_render(ls: Seq<LineModel>)
    requires
        valid_lines(ls),
    ensures
        parse_doc(render_lines(ls)) == Some(ls),
{
    lemma_lines_of_render(ls);
    lemma_parse_bodies_of_render(ls);
}

/// The fixed field path whose leaf holds the deployed image tag.
pub open spec fn tag_path() -> Seq<Seq<char>> {
    seq!["app-template"@, "controllers"@, "main"@, "containers"@, "main"@, "image"@, "tag"@]
}

/// Index of the direct child entry named `key` in the block that starts at
/// line `j` and belongs to a parent of indentation `parent` (`None` for the
/// top level). A direct child is an entry indented like the block's first
/// entry; an entry indented at or left of the parent ends the block.
pub open spec fn spec_find_child(
    ls: Seq<LineModel>,
    j: nat,
    parent: Option<nat>,
    first: Option<nat>,
    key: Seq<char>,
) -> Option<nat>
    decreases ls.len() - j,
{
    if j >= ls.len() {
        None
    } else {
        match ls[j as int] {
            LineModel::Other { .. } => spec_find_child(ls, j + 1, parent, first, key),
            LineModel::Entry { indent, key: k, .. } => {
                if match parent {
                    Some(p) => indent <= p,
                    None => false,
                } {
                    None
                } else {
                    let c = match first {
                        None => indent,
                        Some(c0) => c0,
                    };
                    if indent == c && k == key {
                        Some(j)
                    } else {
                        spec_find_child(ls, j + 1, parent, Some(c), key)
                    }
                }
            },
        }
    }
}

/// Index of the entry the path `segs` leads to, descending from line `from`
/// under a parent of indentation `parent`.
pub open spec fn spec_find_path(
    ls: Seq<LineModel>,
    from: nat,
    parent: Option<nat>,
    segs: Seq<Seq<char>>,
) -> Option<nat>
    decreases segs.len(),
{
    if segs.len() == 0 {
        None
    } else {
        match spec_find_child(ls, from, parent, None, segs[0]) {
            None => None,
            Some(i) => if segs.len() == 1 {
                Some(i)
            } else {
                match ls[i as int] {
                    LineModel::Entry { indent, .. } => spec_find_path(
                        ls,
                        i + 1,
                        Some(indent),
                        segs.drop_first(),
                    ),
                    LineModel::Other { .. } => None,
                }
            },
        }
    }
}

/// Index of the image-tag leaf, if the fixed path is present.
pub open spec fn spec_find_tag(ls: Seq<LineModel>) -> Option<nat> {
    spec_find_path(ls, 0, None, tag_path())
}

/// A found child is an entry, in range, bearing the key looked for.
pub proof fn lemma_find_child_in_range(
    ls: Seq<LineModel>,
    j: nat,
    parent: Option<nat>,
    first: Option<nat>,
    key: Seq<char>,
)
    ensures
        match spec_find_child(ls, j, parent, first, key) {
            Some(i) => j <= i < ls.len() && (ls[i as int] matches LineModel::Entry {
                key: k,
                ..
            } && k == key),
            None => true,
        },
    decreases ls.len() - j,
{
    if j < ls.len() {
        match ls[j as int] {
            LineModel::Other { .. } => {
                lemma_find_child_in_range(ls, j + 1, parent, first, key);
            },
            LineModel::Entry { indent, .. } => {
                let c = match first {
                    None => indent,
                    Some(c0) => c0,
                };
                lemma_find_child_in_range(ls, j + 1, parent, Some(c), key);
            },
        }
    }
}

/// A found path target is an entry in range.
pub proof fn lemma_find_path_in_range(
    ls: Seq<LineModel>,
    from: nat,
    parent: Option<nat>,
    segs: Seq<Seq<char>>,
)
    ensures
        match spec_find_path(ls, from, parent, segs) {
            Some(i) => from <= i < ls.len() && ls[i as int] is Entry,
            None => true,
        },
    decreases segs.len(),
{
    if segs.len() > 0 {
        lemma_find_child_in_range(ls, from, parent, None, segs[0]);
        match spec_find_child(ls, from, parent, None, segs[0]) {
            None => {},
            Some(i) => {
                if segs.len() > 1 {
                    match ls[i as int] {
                        LineModel::Entry { indent, .. } => {
                            lemma_find_path_in_range(ls, i + 1, Some(indent), segs.drop_first());
                        },
                        LineModel::Other { .. } => {},
                    }
                }
            },
        }
    }
}

/// A line with its value stripped: what the path search looks at.
pub open spec fn line_skeleton(l: LineModel) -> LineModel {
    match l {
        LineModel::Entry { indent, key, .. } => (LineModel::Entry { indent, key, value: None }),
        LineModel::Other { text } => (LineModel::Other { text }),
    }
}

/// Two documents whose lines differ at most in entry values.
pub open spec fn same_skeleton(a: Seq<LineModel>, b: Seq<LineModel>) -> bool {
    &&& a.len() == b.len()
    &&& forall|i: int| 0 <= i < a.len() ==> line_skeleton(#[trigger] a[i]) == line_skeleton(b[i])
}

/// The child search never looks at entry values.
pub proof fn lemma_find_child_skeleton(
    a: Seq<LineModel>,
    b: Seq<LineModel>,
    j: nat,
    parent: Option<nat>,
    first: Option<nat>,
    key: Seq<char>,
)
    requires
        same_skeleton(a, b),
    ensures
        spec_find_child(a, j, parent, first, key) == spec_find_child(b, j, parent, first, key),
    decreases a.len() - j,
{
    if j < a.len() {
        assert(line_skeleton(a[j as int]) == line_skeleton(b[j as int]));
        match a[j as int] {
            LineModel::Other { .. } => {
                lemma_find_child_skeleton(a, b, j + 1, parent, first, key);
            },
            LineModel::Entry { indent, key: k, .. } => {
                let c = match first {
                    None => indent,
                    Some(c0) => c0,
                };
                lemma_find_child_skeleton(a, b, j + 1, parent, Some(c), key);
            },
        }
    }
}

/// Neither does the path search.
pub proof fn lemma_find_path_skeleton(
    a: Seq<LineModel>,
    b: Seq<LineModel>,
    from: nat,
    parent: Option<nat>,
    segs: Seq<Seq<char>>,
)
    requires
        same_skeleton(a, b),
    ensures
        spec_find_path(a, from, parent, segs) == spec_find_path(b, from, parent, segs),
    decreases segs.len(),
{
    if segs.len() > 0 {
        lemma_find_child_skeleton(a, b, from, parent, None, segs[0]);
        lemma_find_child_in_range(a, from, parent, None, segs[0]);
        match spec_find_child(a, from, parent, None, segs[0]) {
            None => {},
            Some(i) => {
                if segs.len() > 1 {
                    assert(line_skeleton(a[i as int]) == line_skeleton(b[i as int]));
                    match a[i as int] {
                        LineModel::Entry { indent, .. } => {
                            lemma_find_path_skeleton(a, b, i + 1, Some(indent), segs.drop_first());
                        },
                        LineModel::Other { .. } => {},
                    }
                }
            },
        }
    }
}

/// The patched document: the image-tag leaf rewritten to `tag`, everything
/// else untouched. A missing path, or a tag entry that opens a block instead
/// of holding a scalar, leaves the document unchanged.
pub open spec fn patch_lines(ls: Seq<LineModel>, tag: Seq<char>) -> Seq<LineModel> {
    match spec_find_tag(ls) {
        None => ls,
        Some(i) => match ls[i as int] {
            LineModel::Entry { indent, key, value: Some(_) } => ls.update(
                i as int,
                LineModel::Entry { indent, key, value: Some(tag) },
            ),
            _ => ls,
        },
    }
}

/// The patch changes at most the value of the tag leaf: every other line is
/// preserved, and at the leaf the indentation and key are preserved.
pub proof fn lemma_patch_preserves_rest(ls: Seq<LineModel>, tag: Seq<char>)
    ensures
        patch_lines(ls, tag).len() == ls.len(),
        forall|j: int|
            0 <= j < ls.len() && spec_find_tag(ls) != Some(j as nat) ==> patch_lines(ls, tag)[j]
                == ls[j],
        forall|j: int|
            0 <= j < ls.len() ==> line_skeleton(#[trigger] patch_lines(ls, tag)[j])
                == line_skeleton(ls[j]),
        spec_find_tag(ls) is None ==> patch_lines(ls, tag) == ls,
{
    lemma_find_path_in_range(ls, 0, None, tag_path());
}

/// The patch preserves document validity when the tag is a scalar.
pub proof fn lemma_patch_preserves_validity(ls: Seq<LineModel>, tag: Seq<char>)
    requires
        valid_lines(ls),
        valid_value(tag),
    ensures
        valid_lines(patch_lines(ls, tag)),
{
    lemma_find_path_in_range(ls, 0, None, tag_path());
    lemma_patch_preserves_rest(ls, tag);
    let p = patch_lines(ls, tag);
    assert forall|i: int| 0 <= i < p.len() implies valid_line(#[trigger] p[i]) by {
        assert(line_skeleton(p[i]) == line_skeleton(ls[i]));
        assert(valid_line(ls[i]));
        match spec_find_tag(ls) {
            Some(t) => {
                if i != t {
                    assert(p[i] == ls[i]);
                }
            },
            None => {
                assert(p[i] == ls[i]);
            },
        }
    }
}

/// The patched document's text differs from the unpatched text only in the
/// tag leaf's line: the two texts split into equally many lines, and every
/// line other than the leaf's is character-identical.
pub proof fn lemma_patch_renders_identically_elsewhere(ls: Seq<LineModel>, tag: Seq<char>)
    requires
        valid_lines(ls),
        valid_value(tag),
    ensures
        ({
            let before = lines_of(render_lines(ls));
            let after = lines_of(render_lines(patch_lines(ls, tag)));
            &&& after.len() == before.len()
            &&& forall|j: int|
                0 <= j < before.len() && spec_find_tag(ls) != Some(j as nat) ==> after[j]
                    == before[j]
        }),
{
    let p = patch_lines(ls, tag);
    lemma_patch_preserves_rest(ls, tag);
    lemma_patch_preserves_validity(ls, tag);
    lemma_lines_of_render(ls);
    lemma_lines_of_render(p);
    let before = lines_of(render_lines(ls));
    let after = lines_of(render_lines(p));
    assert forall|j: int|
        0 <= j < before.len() && spec_find_tag(ls) != Some(j as nat) implies after[j]
        == before[j] by {
        assert(p[j] == ls[j]);
        assert(after[j] == render_body(p[j]));
        assert(before[j] == render_body(ls[j]));
    }
}

/// Patching twice with the same tag is patching once.
pub proof fn lemma_patch_idempotent(ls: Seq<LineModel>, tag: Seq<char>)
    ensures
        patch_lines(patch_lines(ls, tag), tag) == patch_lines(ls, tag),
{
    let p = patch_lines(ls, tag);
    lemma_patch_preserves_rest(ls, tag);
    assert(same_skeleton(ls, p));
    lemma_find_path_skeleton(ls, p, 0, None, tag_path());
    assert(spec_find_tag(p) == spec_find_tag(ls));
    lemma_find_path_in_range(ls, 0, None, tag_path());
    match spec_find_tag(ls) {
        None => {},
        Some(i) => {
            match ls[i as int] {
                LineModel::Entry { indent, key, value } => {
                    match value {
                        Some(_) => {
                            assert(p[i as int] == (LineModel::Entry {
                                indent,
                                key,
                                value: Some(tag),
                            }));
                            assert(patch_lines(p, tag) =~= p);
                        },
                        None => {
                            assert(patch_lines(p, tag) == p);
                        },
                    }
                },
                LineModel::Other { .. } => {},
            }
        },
    }
}

/// Deploying the same tag onto an already-patched document changes nothing:
/// the written text parses back to the same lines, patching again leaves
/// them unchanged, and the re-rendered text is identical, so no commit is
/// made on a second run.
pub proof fn lemma_redeploy_is_noop(ls: Seq<LineModel>, tag: Seq<char>)
    requires
        valid_lines(ls),
        valid_value(tag),
    ensures
        parse_doc(render_lines(patch_lines(ls, tag))) == Some(patch_lines(ls, tag)),
        patch_lines(patch_lines(ls, tag), tag) == patch_lines(ls, tag),
        render_lines(patch_lines(patch_lines(ls, tag), tag)) == render_lines(patch_lines(ls, tag)),
{
    lemma_patch_preserves_validity(ls, tag);
    lemma_parse_render(patch_lines(ls, tag));
    lemma_patch_idempotent(ls, tag);
}

/// One manifest line as held in memory.
pub enum ManifestLine {
    Entry { indent: usize, key: Vec<char>, value: Option<Vec<char>> },
    Other { text: Vec<char> },
}

impl View for ManifestLine {
    type V = LineModel;

    open spec fn view(&self) -> LineModel {
        match self {
            ManifestLine::Entry { indent, key, value } => (LineModel::Entry {
                indent: *indent as nat,
                key: key@,
                value: match value {
                    Some(v) => Some(v@),
                    None => None,
                },
            }),
            ManifestLine::Other { text } => (LineModel::Other { text: text@ }),
        }
    }
}

/// The models of a sequence of in-memory lines.
pub open spec fn line_views(v: Seq<ManifestLine>) -> Seq<LineModel> {
    v.map_values(|l: ManifestLine| l@)
}

/// Classify one newline-free line, as `parse_line` describes.
fn parse_one_line(s: &Vec<char>) -> (r: Option<ManifestLine>)
    ensures
        match r {
            Some(l) => parse_line(s@) == Some(l@),
            None => parse_line(s@) is None,
        },
{
    let n = s.len();
    let mut ind: usize = 0;
    while ind < n && s[ind] == ' '
        invariant
            n == s@.len(),
            ind <= n,
            forall|j: int| 0 <= j < ind ==> s@[j] == ' ',
        decreases n - ind,
    {
        ind = ind + 1;
    }
    proof {
        lemma_leading_spaces_is(s@, ind as nat);
    }
    if ind == n {
        let text = sub_chars(s, 0, n);
        proof {
            assert(text@ =~= s@);
        }
        return Some(ManifestLine::Other { text });
    }
    if s[ind] == '#' {
        let text = sub_chars(s, 0, n);
        proof {
            assert(text@ =~= s@);
        }
        return Some(ManifestLine::Other { text });
    }
    let mut k: usize = 0;
    while k < n && s[k] != ':'
        invariant
            n == s@.len(),
            k <= n,
            forall|j: int| 0 <= j < k ==> s@[j] != ':',
        decreases n - k,
    {
        k = k + 1;
    }
    if k == n {
        proof {
            lemma_find_char_none(s@, ':');
        }
        let text = sub_chars(s, 0, n);
        proof {
            assert(text@ =~= s@);
        }
        return Some(ManifestLine::Other { text });
    }
    proof {
        lemma_find_char_is(s@, ':', k as int);
    }
    if k <= ind {
        return None;
    }
    let key = sub_chars(s, ind, k);
    if k + 1 == n {
        let r = ManifestLine::Entry { indent: ind, key, value: None };
        proof {
            assert(s@.subrange(k + 1 as int, n as int) =~= Seq::<char>::empty());
        }
        return Some(r);
    }
    if s[k + 1] == ' ' {
        let value = sub_chars(s, k + 2, n);
        let ghost rest = s@.subrange(k + 1 as int, n as int);
        proof {
            assert(rest[0] == ' ');
            assert(rest.drop_first() =~= value@);
        }
        return Some(ManifestLine::Entry { indent: ind, key, value: Some(value) });
    }
    proof {
        let rest = s@.subrange(k + 1 as int, n as int);
        assert(rest[0] == s@[k + 1]);
    }
    None
}

/// Parse a whole document into its lines, as `parse_doc` describes.
pub fn parse_manifest(content: &Vec<char>) -> (r: Option<Vec<ManifestLine>>)
    ensures
        match r {
            Some(v) => parse_doc(content@) == Some(line_views(v@)),
            None => parse_doc(content@) is None,
        },
{
    let bodies = split_lines(content);
    let m = bodies.len();
    let mut out: Vec<ManifestLine> = Vec::new();
    let mut i: usize = 0;
    proof {
        assert(views_of(bodies@).subrange(0, m as int) =~= views_of(bodies@));
        assert(line_views(out@) =~= Seq::<LineModel>::empty());
        match parse_bodies(views_of(bodies@)) {
            None => {},
            Some(rest) => {
                assert(line_views(out@) + rest =~= rest);
            },
        }
    }
    while i < m
        invariant
            m == bodies@.len(),
            i <= m,
            views_of(bodies@) == lines_of(content@),
            match parse_bodies(views_of(bodies@).subrange(i as int, m as int)) {
                None => parse_doc(content@) is None,
                Some(rest) => parse_doc(content@) == Some(line_views(out@) + rest),
            },
        decreases m - i,
    {
        let ghost suffix = views_of(bodies@).subrange(i as int, m as int);
        proof {
            assert(suffix[0] == bodies@[i as int]@);
            assert(suffix.drop_first() =~= views_of(bodies@).subrange(i + 1 as int, m as int));
        }
        match parse_one_line(&bodies[i]) {
            None => {
                return None;
            },
            Some(l) => {
                let ghost old_outv = out@;
                out.push(l);
                proof {
                    assert(line_views(out@) =~= line_views(old_outv) + seq![l@]);
                    match parse_bodies(suffix.drop_first()) {
                        None => {},
                        Some(rest2) => {
                            assert(parse_bodies(suffix) == Some(seq![l@] + rest2));
                            assert(line_views(old_outv) + (seq![l@] + rest2) =~= line_views(out@)
                                + rest2);
                        },
                    }
                }
            },
        }
        i = i + 1;
    }
    proof {
        assert(views_of(bodies@).subrange(m as int, m as int) =~= Seq::<Seq<char>>::empty());
        assert(line_views(out@) + Seq::<LineModel>::empty() =~= line_views(out@));
    }
    Some(out)
}

/// Append the characters of `v` to `out`.
fn push_chars(out: &mut Vec<char>, v: &Vec<char>)
    ensures
        final(out)@ == old(out)@ + v@,
{
    let n = v.len();
    let mut i: usize = 0;
    while i < n
        invariant
            n == v@.len(),
            i <= n,
            out@ == old(out)@ + v@.subrange(0, i as int),
        decreases n - i,
    {
        out.push(v[i]);
        proof {
            assert(old(out)@ + v@.subrange(0, i + 1 as int) =~= (old(out)@ + v@.subrange(
                0,
                i as int,
            )).push(v@[i as int]));
        }
        i = i + 1;
    }
    proof {
        assert(v@.subrange(0, n as int) =~= v@);
    }
}

/// Append `n` spaces to `out`.
fn push_spaces(out: &mut Vec<char>, n: usize)
    ensures
        final(out)@ == old(out)@ + spaces(n as nat),
{
    let mut i: usize = 0;
    while i < n
        invariant
            i <= n,
            out@ == old(out)@ + spaces(i as nat),
        decreases n - i,
    {
        proof {
            lemma_spaces(i as nat);
            lemma_spaces((i + 1) as nat);
            assert(spaces((i + 1) as nat) =~= spaces(i as nat).push(' '));
            assert(old(out)@ + spaces((i + 1) as nat) =~= (old(out)@ + spaces(i as nat)).push(' '));
        }
        out.push(' ');
        i = i + 1;
    }
}

/// Append one rendered line to `out`.
fn render_one_line(out: &mut Vec<char>, l: &ManifestLine)
    ensures
        final(out)@ == old(out)@ + render_line(l@),
{
    match l {
        ManifestLine::Entry { indent, key, value } => {
            push_spaces(out, *indent);
            push_chars(out, key);
            out.push(':');
            match value {
                Some(v) => {
                    out.push(' ');
                    push_chars(out, v);
                    proof {
                        assert(spaces(*indent as nat) + key@ + seq![':', ' '] + v@ =~= (((old(
                            out,
                        )@ + spaces(*indent as nat) + key@).push(':').push(' ') + v@).skip(old(
                            out,
                        )@.len() as int)));
                        assert(out@ =~= old(out)@ + (spaces(*indent as nat) + key@ + seq![':', ' ']
                            + v@));
                    }
                },
                None => {
                    proof {
                        assert(out@ =~= old(out)@ + (spaces(*indent as nat) + key@ + seq![':']));
                    }
                },
            }
        },
        ManifestLine::Other { text } => {
            push_chars(out, text);
        },
    }
    out.push('\n');
    proof {
        assert(out@ =~= old(out)@ + render_line(l@));
    }
}

/// Render a document back to text, as `render_lines` describes.
pub fn render_manifest(lines: &Vec<ManifestLine>) -> (r: Vec<char>)
    ensures
        r@ == render_lines(line_views(lines@)),
{
    let m = lines.len();
    let mut out: Vec<char> = Vec::new();
    let mut i: usize = 0;
    proof {
        assert(line_views(lines@).subrange(0, m as int) =~= line_views(lines@));
        assert(out@ + render_lines(line_views(lines@)) =~= render_lines(line_views(lines@)));
    }
    while i < m
        invariant
            m == lines@.len(),
            i <= m,
            render_lines(line_views(lines@)) == out@ + render_lines(
                line_views(lines@).subrange(i as int, m as int),
            ),
        decreases m - i,
    {
        let ghost suffix = line_views(lines@).subrange(i as int, m as int);
        proof {
            assert(suffix[0] == lines@[i as int]@);
            assert(suffix.drop_first() =~= line_views(lines@).subrange(i + 1 as int, m as int));
        }
        render_one_line(&mut out, &lines[i]);
        proof {
            assert(out@ + render_lines(suffix.drop_first()) =~= render_lines(
                line_views(lines@),
            ));
        }
        i = i + 1;
    }
    proof {
        assert(line_views(lines@).subrange(m as int, m as int) =~= Seq::<LineModel>::empty());
        assert(out@ + render_lines(Seq::<LineModel>::empty()) =~= out@);
    }
    out
}

/// `Some(p as nat)` for `Some(p)`.
pub open spec fn opt_nat(o: Option<usize>) -> Option<nat> {
    match o {
        Some(p) => Some(p as nat),
        None => None,
    }
}

/// Find a direct child entry, as `spec_find_child` describes.
fn find_child(lines: &Vec<ManifestLine>, from: usize, parent: Option<usize>, key: &Vec<char>) -> (r:
    Option<usize>)
    ensures
        match r {
            Some(i) => spec_find_child(line_views(lines@), from as nat, opt_nat(parent), None, key@)
                == Some(i as nat) && from <= i < lines@.len(),
            None => spec_find_child(line_views(lines@), from as nat, opt_nat(parent), None, key@)
                is None,
        },
{
    let n = lines.len();
    let mut j: usize = from;
    let mut first: Option<usize> = None;
    while j < n
        invariant
            n == lines@.len(),
            from <= j,
            spec_find_child(line_views(lines@), from as nat, opt_nat(parent), None, key@)
                == spec_find_child(line_views(lines@), j as nat, opt_nat(parent), opt_nat(first), key@),
        decreases n - j,
    {
        proof {
            assert(line_views(lines@)[j as int] == lines@[j as int]@);
        }
        match &lines[j] {
            ManifestLine::Other { .. } => {},
            ManifestLine::Entry { indent, key: k, .. } => {
                let ends_block = match parent {
                    Some(p) => *indent <= p,
                    None => false,
                };
                if ends_block {
                    return None;
                }
                let c = match first {
                    None => *indent,
                    Some(c0) => c0,
                };
                if *indent == c && chars_eq(k, key) {
                    return Some(j);
                }
                first = Some(c);
            },
        }
        j = j + 1;
    }
    None
}

/// Find the image-tag leaf, as `spec_find_tag` describes.
pub fn find_tag_line(lines: &Vec<ManifestLine>) -> (r: Option<usize>)
    ensures
        match r {
            Some(i) => spec_find_tag(line_views(lines@)) == Some(i as nat) && i < lines@.len(),
            None => spec_find_tag(line_views(lines@)) is None,
        },
{
    let mut segs: Vec<Vec<char>> = Vec::new();
    segs.push(str_to_chars("app-template"));
    segs.push(str_to_chars("controllers"));
    segs.push(str_to_chars("main"));
    segs.push(str_to_chars("containers"));
    segs.push(str_to_chars("main"));
    segs.push(str_to_chars("image"));
    segs.push(str_to_chars("tag"));
    proof {
        assert(views_of(segs@) =~= tag_path());
    }
    let ghost v = line_views(lines@);
    let nl = lines.len();
    let mut si: usize = 0;
    let mut from: usize = 0;
    let mut parent: Option<usize> = None;
    proof {
        assert(tag_path().subrange(0, 7) =~= tag_path());
    }
    while si < 7
        invariant
            views_of(segs@) == tag_path(),
            segs@.len() == 7,
            si < 7,
            v == line_views(lines@),
            nl == lines@.len(),
            from <= nl,
            spec_find_tag(v) == spec_find_path(v, from as nat, opt_nat(parent), tag_path().subrange(
                si as int,
                7,
            )),
        decreases 7 - si,
    {
        let ghost suffix = tag_path().subrange(si as int, 7);
        proof {
            assert(suffix[0] == segs@[si as int]@);
            assert(suffix.drop_first() =~= tag_path().subrange(si + 1 as int, 7));
        }
        match find_child(lines, from, parent, &segs[si]) {
            None => {
                return None;
            },
            Some(i) => {
                proof {
                    lemma_find_child_in_range(v, from as nat, opt_nat(parent), None, suffix[0]);
                    assert(v[i as int] == lines@[i as int]@);
                }
                if si == 6 {
                    proof {
                        assert(suffix.len() == 1);
                    }
                    return Some(i);
                }
                match &lines[i] {
                    ManifestLine::Entry { indent, .. } => {
                        from = i + 1;
                        parent = Some(*indent);
                    },
                    ManifestLine::Other { .. } => {
                        proof {
                            assert(false);
                        }
                    },
                }
            },
        }
        si = si + 1;
    }
    proof {
        assert(false);
    }
    None
}

/// Rewrite the image-tag leaf to `tag`, as `patch_lines` describes.
pub fn patch_manifest(lines: Vec<ManifestLine>, tag: &Vec<char>) -> (r: Vec<ManifestLine>)
    ensures
        line_views(r@) == patch_lines(line_views(lines@), tag@),
{
    let ghost v0 = line_views(lines@);
    let found = find_tag_line(&lines);
    match found {
        None => lines,
        Some(i) => {
            let is_scalar = match &lines[i] {
                ManifestLine::Entry { value: Some(_), .. } => true,
                _ => false,
            };
            if !is_scalar {
                proof {
                    assert(v0[i as int] == lines@[i as int]@);
                    assert(patch_lines(v0, tag@) == v0);
                }
                return lines;
            }
            let mut lines = lines;
            let ghost before = lines@;
            let old_line = lines.remove(i);
            let ghost mid = lines@;
            let ghost olm = old_line@;
            proof {
                assert(olm == v0[i as int]);
            }
            match old_line {
                ManifestLine::Entry { indent, key, value: _ } => {
                    let ghost keyv = key@;
                    let new_tag = sub_chars(tag, 0, tag.len());
                    let new_line = ManifestLine::Entry { indent, key, value: Some(new_tag) };
                    let ghost nlm = new_line@;
                    proof {
                        assert(tag@.subrange(0, tag@.len() as int) =~= tag@);
                        assert(nlm == (LineModel::Entry {
                            indent: indent as nat,
                            key: keyv,
                            value: Some(tag@),
                        }));
                        assert(olm == (LineModel::Entry {
                            indent: indent as nat,
                            key: keyv,
                            value: olm->Entry_value,
                        }));
                    }
                    lines.insert(i, new_line);
                    proof {
                        let patched = patch_lines(v0, tag@);
                        assert(v0[i as int] matches LineModel::Entry { value: Some(_), .. });
                        before.remove_ensures(i as int);
                        assert forall|j: int| 0 <= j < line_views(lines@).len() implies line_views(
                            lines@,
                        )[j] == patched[j] by {
                            if j < i {
                                assert(lines@[j] == mid[j]);
                                assert(mid[j] == before[j]);
                            } else if j == i {
                                assert(lines@[j]@ == nlm);
                            } else {
                                assert(lines@[j] == mid[j - 1]);
                                assert(mid[j - 1] == before[j]);
                            }
                        }
                        assert(line_views(lines@) =~= patched);
                    }
                    lines
                },
                ManifestLine::Other { text: _ } => {
                    proof {
                        assert(false);
                    }
                    lines
                },
            }
        },
    }
}

/// Patch the manifest text: parse it, rewrite the image-tag leaf, render it
/// back, and report whether the text changed. The boolean decides whether the
/// deploy stage commits.
///
/// The rendering terminates every line with a newline, so a document whose
/// last line lacks one is normalized, and that normalization alone counts as
/// a change and produces one commit; later runs see the normalized text.
pub fn patch_values(content: &Vec<char>, tag: &Vec<char>) -> (r: Result<(Vec<char>, bool), DeployError>)
    requires
        !tag@.contains('\n'),
    ensures
        match parse_doc(content@) {
            None => r matches Err(DeployError::ManifestParse),
            Some(ls) => r matches Ok(p) && p.0@ == render_lines(patch_lines(ls, tag@)) && p.1 == (
            p.0@ != content@),
        },
{
    match parse_manifest(content) {
        None => Err(DeployError::ManifestParse),
        Some(lines) => {
            let patched = patch_manifest(lines, tag);
            let rendered = render_manifest(&patched);
            let changed = !chars_eq(&rendered, content);
            Ok((rendered, changed))
        },
    }
}

} // verus!
