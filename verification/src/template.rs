//! Data for message templates, and their rendering.
//!
//! The data of a template is a JSON object of `serde_json`, filled field by
//! field; the template is rendered by `handlebars`. What the object holds is
//! known to this crate as a map from names to values.
//!
//! Templates here are plain: they fill in fields and may use the built-in
//! helpers. A template that may include a partial is not rendered.

use crate::text::chars_of;
use vstd::prelude::*;

verus! {

/// What a field of a JSON object holds.
pub enum FieldValue {
    /// A number without sign or fraction.
    Number(u64),
    /// A text.
    Text(Seq<char>),
    /// A value of another kind, told by the text that writes it in JSON.
    Other(Seq<char>),
}

#[verifier::external_type_specification]
#[verifier::external_body]
#[verifier::reject_recursive_types(K)]
#[verifier::reject_recursive_types(V)]
pub struct ExJsonMap<K, V>(serde_json::Map<K, V>);

#[verifier::external_type_specification]
#[verifier::external_body]
pub struct ExJsonValue(serde_json::Value);

/// The fields of a JSON object: under each name the value that the object
/// holds for it.
pub uninterp spec fn object_fields(object: serde_json::Map<String, serde_json::Value>) -> Map<
    Seq<char>,
    FieldValue,
>;

/// What rendering `template` with the fields `fields` yields: the text, or
/// `None` where the template or its rendering is in error.
pub uninterp spec fn rendered_template(
    template: Seq<char>,
    fields: Map<Seq<char>, FieldValue>,
) -> Option<Seq<char>>;

/// No fields at all.
pub open spec fn no_fields() -> Map<Seq<char>, FieldValue> {
    Map::empty()
}

/// `serde_json::Map::new`: an object without fields.
#[verifier::external_body]
fn new_object() -> (object: serde_json::Map<String, serde_json::Value>)
    ensures
        object_fields(object) == no_fields(),
{
    serde_json::Map::new()
}

/// `serde_json::Map::insert`, with the number as `serde_json::Value::from`
/// makes it: afterwards the object holds the number under `name`, in place
/// of what it held there, and its other fields as before.
#[verifier::external_body]
fn insert_number(
    object: &mut serde_json::Map<String, serde_json::Value>,
    name: &str,
    value: u64,
)
    ensures
        object_fields(*final(object)) == object_fields(*old(object)).insert(
            name@,
            FieldValue::Number(value),
        ),
{
    object.insert(name.to_owned(), serde_json::Value::from(value));
}

/// `serde_json::Map::insert`, with the text as `serde_json::Value::from`
/// makes it: afterwards the object holds the text under `name`, in place of
/// what it held there, and its other fields as before.
#[verifier::external_body]
fn insert_text(object: &mut serde_json::Map<String, serde_json::Value>, name: &str, value: &str)
    ensures
        object_fields(*final(object)) == object_fields(*old(object)).insert(
            name@,
            FieldValue::Text(value@),
        ),
{
    object.insert(name.to_owned(), serde_json::Value::from(value));
}

/// `c` may stand between the braces that open a tag and the sign that tells
/// its kind: a blank of the template language, `~` or `#`.
pub open spec fn is_tag_filler(c: char) -> bool {
    c == ' ' || c == '\t' || c == '\n' || c == '\r' || c == '~' || c == '#'
}

/// A tag opens at `i` and is still without its sign just before `p`: two
/// opening braces stand at `i`, and only fillers between them and `p`.
pub open spec fn tag_open(s: Seq<char>, i: int, p: int) -> bool {
    &&& 0 <= i
    &&& i + 2 <= p <= s.len()
    &&& s[i] == '{'
    &&& s[i + 1] == '{'
    &&& forall|k: int| i + 2 <= k < p ==> is_tag_filler(#[trigger] s[k])
}

/// Some tag is open just before `p`.
pub open spec fn in_tag_opening(s: Seq<char>, p: int) -> bool {
    exists|i: int| tag_open(s, i, p)
}

/// The template may include a partial: somewhere two opening braces are
/// followed, after fillers only, by `>`. Every tag that includes a partial
/// is written so; a template may be written so without including one.
pub open spec fn asks_for_partial(s: Seq<char>) -> bool {
    exists|p: int| 0 <= p < s.len() && s[p] == '>' && #[trigger] in_tag_opening(s, p)
}

/// What rendering `template` with the fields `fields` comes to: nothing for
/// a template that may include a partial, which is never rendered, and what
/// the engine yields otherwise.
pub open spec fn rendering(template: Seq<char>, fields: Map<Seq<char>, FieldValue>) -> Option<
    Seq<char>,
> {
    if asks_for_partial(template) {
        None
    } else {
        rendered_template(template, fields)
    }
}

/// An open tag stays open over a filler, and a new one opens behind two
/// opening braces.
proof fn lemma_tag_opening_moves(s: Seq<char>, p: int)
    requires
        0 <= p < s.len(),
    ensures
        in_tag_opening(s, p + 1) <==> (in_tag_opening(s, p) && is_tag_filler(s[p])) || (p >= 1
            && s[p - 1] == '{' && s[p] == '{'),
{
    let next = p + 1;
    if in_tag_opening(s, next) {
        let i = choose|i: int| tag_open(s, i, next);
        if i + 2 <= p {
            assert(is_tag_filler(s[p]));
            assert(tag_open(s, i, p));
        }
    }
    if in_tag_opening(s, p) && is_tag_filler(s[p]) {
        let i = choose|i: int| tag_open(s, i, p);
        assert(tag_open(s, i, next));
    }
    if p >= 1 && s[p - 1] == '{' && s[p] == '{' {
        assert(tag_open(s, p - 1, next));
    }
}

/// `handlebars::Handlebars::render_template`, on a registry as
/// `Handlebars::new()` makes it: the result is a function of the template
/// and of the fields of the object alone, named [`rendered_template`]; an
/// error of the engine becomes `None`. Nothing is claimed of what the text
/// is.
///
/// Templates that may include a partial are left out: a partial can include
/// itself, and the engine then follows it without end.
#[verifier::external_body]
fn render_template(template: &str, object: &serde_json::Map<String, serde_json::Value>) -> (rendered:
    Option<String>)
    requires
        !asks_for_partial(template@),
    ensures
        match rendered {
            Some(text) => rendered_template(template@, object_fields(*object)) == Some(text@),
            None => rendered_template(template@, object_fields(*object)) is None,
        },
{
    handlebars::Handlebars::new().render_template(template, object).ok()
}

/// Whether `template` may include a partial.
pub fn may_include_partial(template: &str) -> (found: bool)
    ensures
        found == asks_for_partial(template@),
{
    let chars = chars_of(template);
    let mut open: bool = false;
    let mut p: usize = 0;
    assert(!in_tag_opening(chars@, 0)) by {
        assert forall|i: int| !tag_open(chars@, i, 0) by {}
    }
    while p < chars.len()
        invariant
            chars@ == template@,
            p <= chars@.len(),
            open == in_tag_opening(chars@, p as int),
            forall|q: int| 0 <= q < p ==> !(chars@[q] == '>' && #[trigger] in_tag_opening(chars@, q)),
        decreases chars@.len() - p,
    {
        let c: char = chars[p];
        if open && c == '>' {
            return true;
        }
        proof {
            lemma_tag_opening_moves(chars@, p as int);
        }
        let filler: bool = c == ' ' || c == '\t' || c == '\n' || c == '\r' || c == '~' || c == '#';
        open = (open && filler) || (p >= 1 && chars[p - 1] == '{' && c == '{');
        p = p + 1;
    }
    false
}

/// The values that a template may refer to by name.
pub struct TemplateData {
    object: serde_json::Map<String, serde_json::Value>,
}

impl View for TemplateData {
    type V = Map<Seq<char>, FieldValue>;

    closed spec fn view(&self) -> Map<Seq<char>, FieldValue> {
        object_fields(self.object)
    }
}

impl TemplateData {
    /// Data without any field.
    pub fn new() -> (data: TemplateData)
        ensures
            data@ == no_fields(),
    {
        TemplateData { object: new_object() }
    }

    /// The data with the number `value` under `name`, in place of what was
    /// there.
    pub fn with_number(self, name: &str, value: u64) -> (data: TemplateData)
        ensures
            data@ == self@.insert(name@, FieldValue::Number(value)),
    {
        let mut data = self;
        insert_number(&mut data.object, name, value);
        data
    }

    /// The data with the text `value` under `name`, in place of what was
    /// there.
    pub fn with_text(self, name: &str, value: &str) -> (data: TemplateData)
        ensures
            data@ == self@.insert(name@, FieldValue::Text(value@)),
    {
        let mut data = self;
        insert_text(&mut data.object, name, value);
        data
    }

    /// The text that `template` renders to with this data. There is none
    /// where the template may include a partial, which is then not rendered
    /// at all, nor where the template or its rendering is in error.
    pub fn render(&self, template: &str) -> (rendered: Option<String>)
        ensures
            match rendered {
                Some(text) => rendering(template@, self@) == Some(text@),
                None => rendering(template@, self@) is None,
            },
            asks_for_partial(template@) ==> rendered is None,
    {
        if may_include_partial(template) {
            None
        } else {
            render_template(template, &self.object)
        }
    }
}

} // verus!
