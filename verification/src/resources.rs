//! Named strings: messages and message templates, looked up by name.

use crate::template::{asks_for_partial, rendering, FieldValue, TemplateData};
use vstd::prelude::*;

verus! {

/// One named string.
#[derive(Clone, Debug)]
pub struct StringElement {
    pub name: String,
    pub content: String,
}

/// The strings of one resource file, in file order.
#[derive(Clone, Debug)]
pub struct ResourcesElement {
    pub strings: Vec<StringElement>,
}

/// The content of the first of `strings` that is named `name`, if there is
/// one.
pub open spec fn first_named(strings: Seq<StringElement>, name: Seq<char>) -> Option<Seq<char>>
    decreases strings.len(),
{
    if strings.len() == 0 {
        None
    } else if strings[0].name@ == name {
        Some(strings[0].content@)
    } else {
        first_named(strings.drop_first(), name)
    }
}

/// `first_named` finds the first string of that name and no other: it yields
/// the content at the least index whose string is named `name`, and nothing
/// exactly when no string has that name.
pub proof fn lemma_first_named(strings: Seq<StringElement>, name: Seq<char>)
    ensures
        match first_named(strings, name) {
            Some(content) => exists|i: int|
                {
                    &&& 0 <= i < strings.len()
                    &&& (#[trigger] strings[i]).name@ == name
                    &&& strings[i].content@ == content
                    &&& forall|j: int| 0 <= j < i ==> (#[trigger] strings[j]).name@ != name
                },
            None => forall|i: int| 0 <= i < strings.len() ==> (#[trigger] strings[i]).name@ != name,
        },
    decreases strings.len(),
{
    if strings.len() > 0 && strings[0].name@ != name {
        let rest = strings.drop_first();
        lemma_first_named(rest, name);
        match first_named(rest, name) {
            Some(content) => {
                let i = choose|i: int|
                    {
                        &&& 0 <= i < rest.len()
                        &&& (#[trigger] rest[i]).name@ == name
                        &&& rest[i].content@ == content
                        &&& forall|j: int| 0 <= j < i ==> (#[trigger] rest[j]).name@ != name
                    };
                assert forall|j: int| 0 <= j < i + 1 implies (#[trigger] strings[j]).name@
                    != name by {
                    if j > 0 {
                        assert(strings[j] == rest[j - 1]);
                    }
                }
            },
            None => {
                assert forall|i: int| 0 <= i < strings.len() implies (#[trigger] strings[i]).name@
                    != name by {
                    if i > 0 {
                        assert(strings[i] == rest[i - 1]);
                    }
                }
            },
        }
    }
}

/// Looks strings up by name and renders those that are templates.
#[derive(Clone, Debug)]
pub struct ResourceService {
    resource_element: ResourcesElement,
}

impl ResourceService {
    /// The strings that the service holds, in order.
    pub closed spec fn strings(&self) -> Seq<StringElement> {
        self.resource_element.strings@
    }

    /// The string that the service gives for `name`.
    pub open spec fn resource(&self, name: Seq<char>) -> Option<Seq<char>> {
        first_named(self.strings(), name)
    }

    /// A service over the strings of `resource_element`.
    pub fn new(resource_element: ResourcesElement) -> (service: ResourceService)
        ensures
            service.strings() == resource_element.strings@,
    {
        ResourceService { resource_element }
    }

    /// The content of the first string named `name`, or `None` where no
    /// string has that name.
    pub fn get_resource_string_by_name(&self, name: &str) -> (content: Option<String>)
        ensures
            match content {
                Some(text) => self.resource(name@) == Some(text@),
                None => self.resource(name@) is None,
            },
    {
        let wanted: String = name.to_owned();
        let mut i: usize = 0;
        assert(self.strings().subrange(0, self.strings().len() as int) == self.strings());
        while i < self.resource_element.strings.len()
            invariant
                i <= self.strings().len(),
                wanted@ == name@,
                self.resource(name@) == first_named(
                    self.strings().subrange(i as int, self.strings().len() as int),
                    name@,
                ),
            decreases self.strings().len() - i,
        {
            let ghost rest = self.strings().subrange(i as int, self.strings().len() as int);
            assert(rest.drop_first() == self.strings().subrange(
                i + 1,
                self.strings().len() as int,
            ));
            if self.resource_element.strings[i].name == wanted {
                return Some(self.resource_element.strings[i].content.clone());
            }
            i = i + 1;
        }
        None
    }

    /// What the string named `name` renders to, taken as a template, with
    /// the fields `fields`.
    pub open spec fn rendered(&self, name: Seq<char>, fields: Map<Seq<char>, FieldValue>) -> Option<
        Seq<char>,
    > {
        match self.resource(name) {
            Some(template) => rendering(template, fields),
            None => None,
        }
    }

    /// The string named `name`, taken as a template and rendered with
    /// `data`: `None` where no string has that name, where the template may
    /// include a partial, or where the template or its rendering is in
    /// error.
    pub fn render_resource_template_string_by_name(&self, name: &str, data: &TemplateData) -> (rendered:
        Option<String>)
        ensures
            match rendered {
                Some(text) => self.rendered(name@, data@) == Some(text@),
                None => self.rendered(name@, data@) is None,
            },
            self.resource(name@) matches Some(template) && asks_for_partial(template)
                ==> rendered is None,
    {
        match self.get_resource_string_by_name(name) {
            Some(template_string) => data.render(template_string.as_str()),
            None => None,
        }
    }
}

} // verus!
