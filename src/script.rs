//! Script Builder: turns a debugging request into the script that the UI
//! thread runs.
//!
//! Every value that comes from a client is embedded as a JSON literal.
use vstd::prelude::*;
use crate::json::{
    is_literal_of, json_array, json_quote, json_string_array, json_string_literal,
    lemma_literal_reads_back, texts,
};
use crate::text::{decimal, decimal_string};

verus! {

/// Whether two texts are equal, character by character.
pub fn same_text(a: &str, b: &str) -> (r: bool)
    ensures
        r == (a@ == b@),
{
    let n = a.unicode_len();
    if n != b.unicode_len() {
        return false;
    }
    let mut i: usize = 0;
    while i < n
        invariant
            n == a@.len(),
            n == b@.len(),
            i <= n,
            forall|j: int| 0 <= j < i ==> a@[j] == b@[j],
        decreases n - i,
    {
        if a.get_char(i) != b.get_char(i) {
            return false;
        }
        i += 1;
    }
    assert(a@ =~= b@);
    true
}

/// What a query reads from the element it finds.
pub enum QueryProperty {
    /// The element's text content (`"text"`).
    Text,
    /// The element's inner markup (`"html"`).
    Html,
    /// The element's markup including itself (`"outerHTML"`).
    OuterHtml,
    /// The form value (`"value"`).
    Value,
    /// The attribute of the given name (any other property name).
    Attribute(String),
}

/// The expression that reads `name` from the element `el`.
pub open spec fn accessor_for(name: Seq<char>) -> Seq<char> {
    if name == "text"@ {
        "el.textContent"@
    } else if name == "html"@ {
        "el.innerHTML"@
    } else if name == "outerHTML"@ {
        "el.outerHTML"@
    } else if name == "value"@ {
        "el.value"@
    } else {
        "el.getAttribute("@ + json_quote(name) + ")"@
    }
}

impl QueryProperty {
    /// The expression that reads this property from the element `el`.
    pub open spec fn accessor(&self) -> Seq<char> {
        match self {
            QueryProperty::Text => "el.textContent"@,
            QueryProperty::Html => "el.innerHTML"@,
            QueryProperty::OuterHtml => "el.outerHTML"@,
            QueryProperty::Value => "el.value"@,
            QueryProperty::Attribute(a) => "el.getAttribute("@ + json_quote(a@) + ")"@,
        }
    }

    /// The property that a client names; names other than `text`, `html`,
    /// `outerHTML` and `value` are attribute names.
    pub fn from_name(name: &str) -> (r: QueryProperty)
        ensures
            r.accessor() == accessor_for(name@),
            name@ == "text"@ ==> r is Text,
            name@ == "html"@ ==> r is Html,
            name@ == "outerHTML"@ ==> r is OuterHtml,
            name@ == "value"@ ==> r is Value,
            r matches QueryProperty::Attribute(a) ==> a@ == name@,
    {
        proof {
            reveal_strlit("text");
            reveal_strlit("html");
            reveal_strlit("outerHTML");
            reveal_strlit("value");
            assert("text"@[0] != "html"@[0]);
            assert("text"@.len() != "outerHTML"@.len() && "text"@.len() != "value"@.len());
            assert("html"@.len() != "outerHTML"@.len() && "html"@.len() != "value"@.len());
            assert("outerHTML"@.len() != "value"@.len());
        }
        if same_text(name, "text") {
            QueryProperty::Text
        } else if same_text(name, "html") {
            QueryProperty::Html
        } else if same_text(name, "outerHTML") {
            QueryProperty::OuterHtml
        } else if same_text(name, "value") {
            QueryProperty::Value
        } else {
            QueryProperty::Attribute(String::from_str(name))
        }
    }

    /// The expression that reads this property from the element `el`.
    pub fn accessor_text(&self) -> (r: String)
        ensures
            r@ == self.accessor(),
    {
        match self {
            QueryProperty::Text => String::from_str("el.textContent"),
            QueryProperty::Html => String::from_str("el.innerHTML"),
            QueryProperty::OuterHtml => String::from_str("el.outerHTML"),
            QueryProperty::Value => String::from_str("el.value"),
            QueryProperty::Attribute(a) => {
                let mut r = String::from_str("el.getAttribute(");
                let lit = json_string_literal(a.as_str());
                r.append(lit.as_str());
                r.append(")");
                r
            },
        }
    }
}

/// Script that returns `accessor` of the first element matching the selector
/// literal `lit`, or `null` when nothing matches.
pub open spec fn query_script(lit: Seq<char>, accessor: Seq<char>) -> Seq<char> {
    query_head() + lit + query_mid() + accessor + query_tail()
}

/// The fixed text of a query script before the selector literal.
pub open spec fn query_head() -> Seq<char> {
    "return (() => {\n    const el = document.querySelector("@
}

/// The fixed text of a query script between the selector literal and the
/// accessor.
pub open spec fn query_mid() -> Seq<char> {
    ");\n    return el ? "@
}

/// The fixed text of a query script after the accessor.
pub open spec fn query_tail() -> Seq<char> {
    " : null;\n})()"@
}

/// Script that reads `property` of the first element matching `selector`.
pub fn build_query_script(selector: &str, property: &str) -> (r: String)
    ensures
        r@ == query_script(json_quote(selector@), accessor_for(property@)),
{
    let lit = json_string_literal(selector);
    let accessor = QueryProperty::from_name(property).accessor_text();
    let mut r = String::from_str("return (() => {\n    const el = document.querySelector(");
    r.append(lit.as_str());
    r.append(");\n    return el ? ");
    r.append(accessor.as_str());
    r.append(" : null;\n})()");
    r
}

/// Default number of levels that a DOM walk descends.
pub const DEFAULT_DOM_DEPTH: u32 = 10;

/// Default number of nodes after which a DOM walk stops.
pub const DEFAULT_DOM_NODES: u32 = 500;

/// Walks the tree below `ROOT_SELECTOR` (the body when it is `null`); both
/// caps are hard: no node deeper than `MAX_DEPTH` levels and no more than
/// `MAX_NODES` nodes are visited.
pub const DOM_WALK_BODY: &'static str = r#"let visited = 0;
function walk(el, depth) {
  if (visited >= MAX_NODES) return null;
  visited += 1;
  const node = { tag: el.tagName.toLowerCase() };
  if (el.id) node.id = el.id;
  const classes = typeof el.className === 'string' ? el.className.split(/\s+/).filter(Boolean) : [];
  if (classes.length) node.classes = classes;
  if (depth < MAX_DEPTH) {
    const children = [];
    for (const child of Array.from(el.children)) {
      const sub = walk(child, depth + 1);
      if (sub === null) break;
      children.push(sub);
    }
    if (children.length) node.children = children;
  }
  return node;
}
const root = ROOT_SELECTOR === null ? document.body : document.querySelector(ROOT_SELECTOR);
return root ? JSON.stringify(walk(root, 1)) : null;"#;

/// Reports the box, computed visibility and occlusion of the first element
/// matching `SELECTOR`, or `null` when nothing matches.
pub const INSPECT_BODY: &'static str = r#"const el = document.querySelector(SELECTOR);
if (!el) return null;
const rect = el.getBoundingClientRect();
const style = window.getComputedStyle(el);
const inViewport = rect.bottom > 0 && rect.right > 0 && rect.top < window.innerHeight && rect.left < window.innerWidth;
const hit = document.elementFromPoint(rect.left + rect.width / 2, rect.top + rect.height / 2);
const occluded = hit !== null && hit !== el && !el.contains(hit);
return JSON.stringify({
  tag: el.tagName.toLowerCase(),
  rect: { x: rect.x, y: rect.y, width: rect.width, height: rect.height },
  display: style.display,
  visibility: style.visibility,
  opacity: style.opacity,
  inViewport: inViewport,
  occluded: occluded,
  occludedBy: occluded ? hit.tagName.toLowerCase() + (hit.id ? '#' + hit.id : '') : null,
  visible: style.display !== 'none' && style.visibility !== 'hidden' && Number(style.opacity) > 0
    && rect.width > 0 && rect.height > 0 && inViewport && !occluded
});"#;

/// Splits `CLASSES` into those that some loaded style rule targets and the
/// rest, each class in exactly one of the two lists, in input order.
pub const VALIDATE_CLASSES_BODY: &'static str = r#"const defined = new Set();
function collect(rules) {
  for (const rule of Array.from(rules || [])) {
    const text = rule.selectorText || '';
    for (const m of text.matchAll(/\.((?:\\.|[\w-])+)/g)) defined.add(m[1].replace(/\\(.)/g, '$1'));
    if (rule.cssRules) collect(rule.cssRules);
  }
}
for (const sheet of Array.from(document.styleSheets)) {
  let rules = null;
  try { rules = sheet.cssRules; } catch (e) { rules = null; }
  collect(rules);
}
const available = CLASSES.filter((c) => defined.has(c));
const missing = CLASSES.filter((c) => !defined.has(c));
return JSON.stringify({ available: available, missing: missing });"#;

/// A quick structural health scan of the page.
pub const DIAGNOSE_SCRIPT: &'static str = r#"const issues = [];
const body = document.body;
if (!body) issues.push('document has no body');
const elements = body ? body.querySelectorAll('*').length : 0;
if (body && elements === 0) issues.push('body has no elements');
const text = body ? (body.innerText || '').trim() : '';
if (body && text.length === 0) issues.push('page shows no text');
const hidden = body ? Array.from(body.children).filter((el) => {
  const style = window.getComputedStyle(el);
  return style.display === 'none' || style.visibility === 'hidden';
}).length : 0;
if (body && body.children.length > 0 && hidden === body.children.length) issues.push('every top-level element is hidden');
return JSON.stringify({
  healthy: issues.length === 0,
  title: document.title,
  elements: elements,
  textLength: text.length,
  issues: issues
});"#;

/// DOM walk script with the given caps, rooted at the selector literal `root`
/// (`null` for the document body).
pub open spec fn dom_script(depth: nat, max_nodes: nat, root: Seq<char>) -> Seq<char> {
    "const MAX_DEPTH = "@ + decimal(depth) + ";\nconst MAX_NODES = "@ + decimal(max_nodes)
        + ";\nconst ROOT_SELECTOR = "@ + root + ";\n"@ + DOM_WALK_BODY@
}

/// The root literal of a DOM walk: the selector's JSON literal, or `null`.
pub open spec fn root_literal(selector: Option<String>) -> Seq<char> {
    match selector {
        Some(s) => json_quote(s@),
        None => "null"@,
    }
}

/// Script that serializes a simplified DOM tree: at most `depth` levels and
/// `max_nodes` nodes, from `selector` or the document body.
pub fn build_dom_script(depth: u32, max_nodes: u32, selector: &Option<String>) -> (r: String)
    ensures
        r@ == dom_script(depth as nat, max_nodes as nat, root_literal(*selector)),
{
    let root = match selector {
        Some(s) => json_string_literal(s.as_str()),
        None => String::from_str("null"),
    };
    let mut r = String::from_str("const MAX_DEPTH = ");
    let d = decimal_string(depth as u64);
    r.append(d.as_str());
    r.append(";\nconst MAX_NODES = ");
    let n = decimal_string(max_nodes as u64);
    r.append(n.as_str());
    r.append(";\nconst ROOT_SELECTOR = ");
    r.append(root.as_str());
    r.append(";\n");
    r.append(DOM_WALK_BODY);
    r
}

/// Visibility diagnostics script for the selector literal `lit`.
pub open spec fn inspect_script(lit: Seq<char>) -> Seq<char> {
    "const SELECTOR = "@ + lit + ";\n"@ + INSPECT_BODY@
}

/// Script that reports visibility diagnostics of the first element matching
/// `selector`.
pub fn build_inspect_script(selector: &str) -> (r: String)
    ensures
        r@ == inspect_script(json_quote(selector@)),
{
    let lit = json_string_literal(selector);
    let mut r = String::from_str("const SELECTOR = ");
    r.append(lit.as_str());
    r.append(";\n");
    r.append(INSPECT_BODY);
    r
}

/// Class-check script for the array literal `list`.
pub open spec fn validate_classes_script(list: Seq<char>) -> Seq<char> {
    "const CLASSES = "@ + list + ";\n"@ + VALIDATE_CLASSES_BODY@
}

/// Script that splits `classes` into those the stylesheets define and those
/// they do not.
pub fn build_validate_classes_script(classes: &Vec<String>) -> (r: String)
    ensures
        r@ == validate_classes_script(json_array(texts(classes@))),
{
    let list = json_string_array(classes);
    let mut r = String::from_str("const CLASSES = ");
    r.append(list.as_str());
    r.append(";\n");
    r.append(VALIDATE_CLASSES_BODY);
    r
}

/// The built-in health probe.
pub fn build_diagnose_script() -> (r: String)
    ensures
        r@ == DIAGNOSE_SCRIPT@,
{
    String::from_str(DIAGNOSE_SCRIPT)
}

/// The string by which the UI side recognizes a resize request.
pub open spec fn resize_sentinel(width: nat, height: nat) -> Seq<char> {
    "__BRIDGE_RESIZE__"@ + decimal(width) + "x"@ + decimal(height) + "__"@
}

/// A script whose only effect is to return `s` as a string.
pub open spec fn returning(s: Seq<char>) -> Seq<char> {
    "return '"@ + s + "'"@
}

/// The resize sentinel for `width` by `height`.
pub fn resize_sentinel_text(width: u32, height: u32) -> (r: String)
    ensures
        r@ == resize_sentinel(width as nat, height as nat),
{
    let mut r = String::from_str("__BRIDGE_RESIZE__");
    let w = decimal_string(width as u64);
    r.append(w.as_str());
    r.append("x");
    let h = decimal_string(height as u64);
    r.append(h.as_str());
    r.append("__");
    r
}

/// Script that returns the resize sentinel; the window itself is resized by
/// the UI side when it sees that result.
pub fn build_resize_script(width: u32, height: u32) -> (r: String)
    ensures
        r@ == returning(resize_sentinel(width as nat, height as nat)),
{
    let sentinel = resize_sentinel_text(width, height);
    let mut r = String::from_str("return '");
    r.append(sentinel.as_str());
    r.append("'");
    r
}

/// Whether `needle` occurs in `hay` as a contiguous run.
pub open spec fn contains(hay: Seq<char>, needle: Seq<char>) -> bool {
    exists|i: int|
        0 <= i && i + needle.len() <= hay.len() && #[trigger] hay.subrange(i, i + needle.len()) == needle
}

/// A query script holds the selector as a JSON literal that reads back as
/// exactly the selector, whatever quotes or backslashes it holds.
pub proof fn lemma_query_script_embeds_selector(selector: Seq<char>, property: Seq<char>)
    ensures
        contains(query_script(json_quote(selector), accessor_for(property)), json_quote(selector)),
        is_literal_of(json_quote(selector), selector),
{
    let head = "return (() => {\n    const el = document.querySelector("@;
    let lit = json_quote(selector);
    let script = query_script(lit, accessor_for(property));
    assert(script.subrange(head.len() as int, (head.len() + lit.len()) as int) =~= lit);
    lemma_literal_reads_back(selector);
}

/// A query script reads what the property names: `text` the text content,
/// `html` the inner markup, `outerHTML` the outer markup, `value` the form
/// value, and any other name the attribute of that name.
pub proof fn lemma_query_script_reads_property(selector: Seq<char>, property: Seq<char>)
    ensures
        property == "text"@ ==> contains(
            query_script(json_quote(selector), accessor_for(property)),
            "el.textContent"@,
        ),
        property == "html"@ ==> contains(
            query_script(json_quote(selector), accessor_for(property)),
            "el.innerHTML"@,
        ),
        property == "outerHTML"@ ==> contains(
            query_script(json_quote(selector), accessor_for(property)),
            "el.outerHTML"@,
        ),
        property == "value"@ ==> contains(
            query_script(json_quote(selector), accessor_for(property)),
            "el.value"@,
        ),
        property != "text"@ && property != "html"@ && property != "outerHTML"@ && property
            != "value"@ ==> contains(
            query_script(json_quote(selector), accessor_for(property)),
            "el.getAttribute("@ + json_quote(property) + ")"@,
        ),
{
    let head = "return (() => {\n    const el = document.querySelector("@;
    let mid = ");\n    return el ? "@;
    let lit = json_quote(selector);
    let acc = accessor_for(property);
    let script = query_script(lit, acc);
    let at = head.len() + lit.len() + mid.len();
    reveal_strlit("text");
    reveal_strlit("html");
    reveal_strlit("outerHTML");
    reveal_strlit("value");
    assert("text"@[0] != "html"@[0]);
    assert("text"@.len() != "outerHTML"@.len() && "html"@.len() != "outerHTML"@.len());
    assert(script.subrange(at as int, (at + acc.len()) as int) =~= acc);
}

/// Whether the character `c` does not occur in `s`.
pub open spec fn lacks(s: Seq<char>, c: char) -> bool {
    forall|j: int| 0 <= j < s.len() ==> s[j] != c
}

/// Whether `w` occurs in `s` starting at `i`.
pub open spec fn occurs_at(s: Seq<char>, w: Seq<char>, i: int) -> bool {
    0 <= i && i + w.len() <= s.len() && s.subrange(i, i + w.len()) == w
}

/// Whether every occurrence of `w` in `s` lies within `start..end`.
pub open spec fn only_within(s: Seq<char>, w: Seq<char>, start: int, end: int) -> bool {
    forall|i: int| #[trigger] occurs_at(s, w, i) ==> start <= i && i + w.len() <= end
}

/// Whether every occurrence of `w` in `s` lies within `start1..end1` or
/// within `start2..end2`.
pub open spec fn only_within_either(
    s: Seq<char>,
    w: Seq<char>,
    start1: int,
    end1: int,
    start2: int,
    end2: int,
) -> bool {
    forall|i: int| #[trigger]
        occurs_at(s, w, i) ==> (start1 <= i && i + w.len() <= end1) || (start2 <= i && i + w.len()
            <= end2)
}

/// Whether `l` opens and closes with a quote.
pub open spec fn quoted(l: Seq<char>) -> bool {
    l.len() >= 2 && l[0] == '"' && l[l.len() - 1] == '"'
}

proof fn lemma_lacks_concat(a: Seq<char>, b: Seq<char>, c: char)
    requires
        lacks(a, c),
        lacks(b, c),
    ensures
        lacks(a + b, c),
{
    assert forall|j: int| 0 <= j < (a + b).len() implies (a + b)[j] != c by {
        if j >= a.len() {
            assert((a + b)[j] == b[j - a.len()]);
        }
    }
}

proof fn lemma_lacks_three(a: Seq<char>, b: Seq<char>, d: Seq<char>, c: char)
    requires
        lacks(a, c),
        lacks(b, c),
        lacks(d, c),
    ensures
        lacks(a + b + d, c),
{
    lemma_lacks_concat(a, b, c);
    lemma_lacks_concat(a + b, d, c);
}

proof fn lemma_lacks_no_occurrence(hay: Seq<char>, w: Seq<char>, k: int)
    requires
        0 <= k < w.len(),
        lacks(hay, w[k]),
    ensures
        forall|i: int| !occurs_at(hay, w, i),
{
    assert forall|i: int| !occurs_at(hay, w, i) by {
        if occurs_at(hay, w, i) {
            assert(hay.subrange(i, i + w.len())[k] == hay[i + k]);
        }
    }
}

proof fn lemma_quoted_json(s: Seq<char>)
    ensures
        quoted(json_quote(s)),
{
    let l = json_quote(s);
    assert(l[l.len() - 1] == '"');
}

/// An occurrence of `w` in `a + l + b`, where `w` has no quote, `a` holds
/// none and `l` is quoted, lies within `l` or wholly within `b`.
proof fn lemma_split_at_literal(a: Seq<char>, l: Seq<char>, b: Seq<char>, w: Seq<char>)
    requires
        w.len() > 0,
        lacks(w, '"'),
        quoted(l),
        forall|i: int| !occurs_at(a, w, i),
    ensures
        forall|i: int| #[trigger]
            occurs_at(a + l + b, w, i) ==> (a.len() <= i && i + w.len() <= a.len() + l.len()) || (i
                >= a.len() + l.len() && occurs_at(b, w, i - a.len() - l.len())),
{
    let s = a + l + b;
    let n = w.len() as int;
    assert forall|i: int| #[trigger]
        occurs_at(s, w, i) implies (a.len() <= i && i + n <= a.len() + l.len()) || (i >= a.len()
            + l.len() && occurs_at(b, w, i - a.len() - l.len())) by {
        let win = s.subrange(i, i + n);
        if i + n <= a.len() {
            assert(win =~= a.subrange(i, i + n));
            assert(occurs_at(a, w, i));
        } else if i < a.len() {
            assert(win[a.len() - i] == s[a.len() as int]);
            assert(s[a.len() as int] == l[0]);
        } else if i < a.len() + l.len() && i + n > a.len() + l.len() {
            let p = a.len() + l.len() - 1;
            assert(win[p - i] == s[p]);
            assert(s[p] == l[l.len() - 1]);
        } else if i >= a.len() + l.len() {
            let q = i - a.len() - l.len();
            assert(win =~= b.subrange(q, q + n));
        }
    }
}

proof fn lemma_word_in_literal(a: Seq<char>, l: Seq<char>, b: Seq<char>, w: Seq<char>, k: int)
    requires
        0 <= k < w.len(),
        lacks(w, '"'),
        quoted(l),
        lacks(a, w[k]),
        lacks(b, w[k]),
    ensures
        only_within(a + l + b, w, a.len() as int, (a.len() + l.len()) as int),
{
    lemma_lacks_no_occurrence(a, w, k);
    lemma_lacks_no_occurrence(b, w, k);
    lemma_split_at_literal(a, l, b, w);
}

proof fn lemma_word_in_literals(
    a: Seq<char>,
    l: Seq<char>,
    b: Seq<char>,
    l2: Seq<char>,
    b2: Seq<char>,
    w: Seq<char>,
    k: int,
)
    requires
        0 <= k < w.len(),
        lacks(w, '"'),
        quoted(l),
        quoted(l2),
        lacks(a, w[k]),
        lacks(b, w[k]),
        lacks(b2, w[k]),
    ensures
        only_within_either(
            a + l + (b + l2 + b2),
            w,
            a.len() as int,
            (a.len() + l.len()) as int,
            (a.len() + l.len() + b.len()) as int,
            (a.len() + l.len() + b.len() + l2.len()) as int,
        ),
{
    lemma_lacks_no_occurrence(a, w, k);
    lemma_lacks_no_occurrence(b, w, k);
    lemma_lacks_no_occurrence(b2, w, k);
    lemma_split_at_literal(a, l, b + l2 + b2, w);
    lemma_split_at_literal(b, l2, b2, w);
}

proof fn lemma_fixed_text_letters()
    ensures
        lacks(query_head(), 'C') && lacks(query_head(), 'H') && lacks(query_head(), 'v') && lacks(
            query_head(),
            'A',
        ),
        lacks(query_mid(), 'C') && lacks(query_mid(), 'H') && lacks(query_mid(), 'v') && lacks(
            query_mid(),
            'A',
        ) && lacks(query_mid(), 'o') && lacks(query_mid(), 'i'),
        lacks(query_tail(), 'C') && lacks(query_tail(), 'H') && lacks(query_tail(), 'v') && lacks(
            query_tail(),
            'A',
        ) && lacks(query_tail(), 'o') && lacks(query_tail(), 'i'),
        lacks("el.textContent"@, 'H') && lacks("el.textContent"@, 'v') && lacks(
            "el.textContent"@,
            'A',
        ),
        lacks("el.innerHTML"@, 'C') && lacks("el.innerHTML"@, 'o') && lacks("el.innerHTML"@, 'v')
            && lacks("el.innerHTML"@, 'A'),
        lacks("el.outerHTML"@, 'C') && lacks("el.outerHTML"@, 'i') && lacks("el.outerHTML"@, 'v')
            && lacks("el.outerHTML"@, 'A'),
        lacks("el.value"@, 'C') && lacks("el.value"@, 'H') && lacks("el.value"@, 'A'),
        lacks("el.getAttribute("@, 'C') && lacks("el.getAttribute("@, 'H') && lacks(
            "el.getAttribute("@,
            'v',
        ),
        lacks(")"@, 'C') && lacks(")"@, 'H') && lacks(")"@, 'v'),
        lacks("textContent"@, '"') && "textContent"@[4] == 'C',
        lacks("innerHTML"@, '"') && "innerHTML"@[5] == 'H' && "innerHTML"@[0] == 'i',
        lacks("outerHTML"@, '"') && "outerHTML"@[5] == 'H' && "outerHTML"@[0] == 'o',
        lacks("el.value"@, '"') && "el.value"@[3] == 'v',
        lacks("getAttribute"@, '"') && "getAttribute"@[3] == 'A',
        "textContent"@.len() == 11 && "innerHTML"@.len() == 9 && "outerHTML"@.len() == 9
            && "el.value"@.len() == 8 && "getAttribute"@.len() == 12,
{
    reveal_strlit("return (() => {\n    const el = document.querySelector(");
    reveal_strlit(");\n    return el ? ");
    reveal_strlit(" : null;\n})()");
    reveal_strlit("el.textContent");
    reveal_strlit("el.innerHTML");
    reveal_strlit("el.outerHTML");
    reveal_strlit("el.value");
    reveal_strlit("el.getAttribute(");
    reveal_strlit(")");
    reveal_strlit("textContent");
    reveal_strlit("innerHTML");
    reveal_strlit("outerHTML");
    reveal_strlit("getAttribute");
}

/// Outside the selector literal, a query script reads only the property it
/// names: for `text`, `html`, `outerHTML` and `value` every occurrence of
/// the other accessors (`textContent`, `innerHTML`, `outerHTML`, `el.value`,
/// `getAttribute`) lies inside the selector literal; for any other name,
/// every occurrence of the four property accessors lies inside the selector
/// literal or the attribute-name literal.
pub proof fn lemma_query_script_reads_only_property(selector: Seq<char>, property: Seq<char>)
    ensures
        ({
            let lit = json_quote(selector);
            let script = query_script(lit, accessor_for(property));
            let start = query_head().len() as int;
            let end = start + lit.len();
            property == "text"@ ==> {
                &&& only_within(script, "innerHTML"@, start, end)
                &&& only_within(script, "outerHTML"@, start, end)
                &&& only_within(script, "el.value"@, start, end)
                &&& only_within(script, "getAttribute"@, start, end)
            }
        }),
        ({
            let lit = json_quote(selector);
            let script = query_script(lit, accessor_for(property));
            let start = query_head().len() as int;
            let end = start + lit.len();
            property == "html"@ ==> {
                &&& only_within(script, "textContent"@, start, end)
                &&& only_within(script, "outerHTML"@, start, end)
                &&& only_within(script, "el.value"@, start, end)
                &&& only_within(script, "getAttribute"@, start, end)
            }
        }),
        ({
            let lit = json_quote(selector);
            let script = query_script(lit, accessor_for(property));
            let start = query_head().len() as int;
            let end = start + lit.len();
            property == "outerHTML"@ ==> {
                &&& only_within(script, "textContent"@, start, end)
                &&& only_within(script, "innerHTML"@, start, end)
                &&& only_within(script, "el.value"@, start, end)
                &&& only_within(script, "getAttribute"@, start, end)
            }
        }),
        ({
            let lit = json_quote(selector);
            let script = query_script(lit, accessor_for(property));
            let start = query_head().len() as int;
            let end = start + lit.len();
            property == "value"@ ==> {
                &&& only_within(script, "textContent"@, start, end)
                &&& only_within(script, "innerHTML"@, start, end)
                &&& only_within(script, "outerHTML"@, start, end)
                &&& only_within(script, "getAttribute"@, start, end)
            }
        }),
        ({
            let lit = json_quote(selector);
            let name = json_quote(property);
            let script = query_script(lit, accessor_for(property));
            let start = query_head().len() as int;
            let end = start + lit.len();
            let start2 = end + query_mid().len() + "el.getAttribute("@.len();
            let end2 = start2 + name.len();
            property != "text"@ && property != "html"@ && property != "outerHTML"@ && property
                != "value"@ ==> {
                &&& only_within_either(script, "textContent"@, start, end, start2, end2)
                &&& only_within_either(script, "innerHTML"@, start, end, start2, end2)
                &&& only_within_either(script, "outerHTML"@, start, end, start2, end2)
                &&& only_within_either(script, "el.value"@, start, end, start2, end2)
            }
        }),
{
    let lit = json_quote(selector);
    let acc = accessor_for(property);
    let head = query_head();
    let mid = query_mid();
    let tail = query_tail();
    lemma_quoted_json(selector);
    lemma_quoted_json(property);
    lemma_fixed_text_letters();
    reveal_strlit("text");
    reveal_strlit("html");
    reveal_strlit("outerHTML");
    reveal_strlit("value");
    assert("text"@[0] != "html"@[0]);
    assert("text"@.len() != "outerHTML"@.len() && "html"@.len() != "outerHTML"@.len());
    assert("text"@.len() != "value"@.len() && "html"@.len() != "value"@.len());
    assert("outerHTML"@.len() != "value"@.len());
    if property == "text"@ || property == "html"@ || property == "outerHTML"@ || property
        == "value"@ {
        let after = mid + acc + tail;
        assert(query_script(lit, acc) =~= head + lit + after);
        if property == "text"@ {
            lemma_lacks_three(mid, acc, tail, 'H');
            lemma_lacks_three(mid, acc, tail, 'v');
            lemma_lacks_three(mid, acc, tail, 'A');
            lemma_word_in_literal(head, lit, after, "innerHTML"@, 5);
            lemma_word_in_literal(head, lit, after, "outerHTML"@, 5);
            lemma_word_in_literal(head, lit, after, "el.value"@, 3);
            lemma_word_in_literal(head, lit, after, "getAttribute"@, 3);
        } else if property == "html"@ {
            lemma_lacks_three(mid, acc, tail, 'C');
            lemma_lacks_three(mid, acc, tail, 'o');
            lemma_lacks_three(mid, acc, tail, 'v');
            lemma_lacks_three(mid, acc, tail, 'A');
            lemma_word_in_literal(head, lit, after, "textContent"@, 4);
            lemma_lacks_no_occurrence(head, "outerHTML"@, 5);
            lemma_lacks_no_occurrence(after, "outerHTML"@, 0);
            lemma_split_at_literal(head, lit, after, "outerHTML"@);
            lemma_word_in_literal(head, lit, after, "el.value"@, 3);
            lemma_word_in_literal(head, lit, after, "getAttribute"@, 3);
        } else if property == "outerHTML"@ {
            lemma_lacks_three(mid, acc, tail, 'C');
            lemma_lacks_three(mid, acc, tail, 'i');
            lemma_lacks_three(mid, acc, tail, 'v');
            lemma_lacks_three(mid, acc, tail, 'A');
            lemma_word_in_literal(head, lit, after, "textContent"@, 4);
            lemma_lacks_no_occurrence(head, "innerHTML"@, 5);
            lemma_lacks_no_occurrence(after, "innerHTML"@, 0);
            lemma_split_at_literal(head, lit, after, "innerHTML"@);
            lemma_word_in_literal(head, lit, after, "el.value"@, 3);
            lemma_word_in_literal(head, lit, after, "getAttribute"@, 3);
        } else {
            lemma_lacks_three(mid, acc, tail, 'C');
            lemma_lacks_three(mid, acc, tail, 'H');
            lemma_lacks_three(mid, acc, tail, 'A');
            lemma_word_in_literal(head, lit, after, "textContent"@, 4);
            lemma_word_in_literal(head, lit, after, "innerHTML"@, 5);
            lemma_word_in_literal(head, lit, after, "outerHTML"@, 5);
            lemma_word_in_literal(head, lit, after, "getAttribute"@, 3);
        }
    } else {
        let name = json_quote(property);
        let b1 = mid + "el.getAttribute("@;
        let b2 = ")"@ + tail;
        assert(query_script(lit, acc) =~= head + lit + (b1 + name + b2));
        lemma_lacks_concat(mid, "el.getAttribute("@, 'C');
        lemma_lacks_concat(mid, "el.getAttribute("@, 'H');
        lemma_lacks_concat(mid, "el.getAttribute("@, 'v');
        lemma_lacks_concat(")"@, tail, 'C');
        lemma_lacks_concat(")"@, tail, 'H');
        lemma_lacks_concat(")"@, tail, 'v');
        lemma_word_in_literals(head, lit, b1, name, b2, "textContent"@, 4);
        lemma_word_in_literals(head, lit, b1, name, b2, "innerHTML"@, 5);
        lemma_word_in_literals(head, lit, b1, name, b2, "outerHTML"@, 5);
        lemma_word_in_literals(head, lit, b1, name, b2, "el.value"@, 3);
    }
}

} // verus!
