//! Options, groups and popup states of a select.
//!
//! Options carry the host's identifiers of their id and value as integers (the host
//! interns its element ids and values): two options have the same id, or the same value,
//! exactly when these integers are equal.
use vstd::prelude::*;

use crate::icon::IconSource;
use crate::traits::Disableable;

verus! {

/// What the popup shows, decided by the host.
#[derive(Debug)]
pub enum SelectStatus {
    /// The options and groups; the default.
    Ready,
    /// A loading message.
    Loading(String),
    /// An empty-state message.
    Empty(String),
    /// An error message.
    Error(String),
}

impl SelectStatus {
    /// A loading message.
    pub fn loading(message: &str) -> (r: SelectStatus)
        ensures
            r matches SelectStatus::Loading(m) && m@ == message@,
    {
        SelectStatus::Loading(message.to_string())
    }

    /// An empty-state message.
    pub fn empty(message: &str) -> (r: SelectStatus)
        ensures
            r matches SelectStatus::Empty(m) && m@ == message@,
    {
        SelectStatus::Empty(message.to_string())
    }

    /// An error message.
    pub fn error(message: &str) -> (r: SelectStatus)
        ensures
            r matches SelectStatus::Error(m) && m@ == message@,
    {
        SelectStatus::Error(message.to_string())
    }

    /// The popup shows the options.
    pub fn is_ready(&self) -> (r: bool)
        ensures
            r == (*self is Ready),
    {
        match self {
            SelectStatus::Ready => true,
            _ => false,
        }
    }
}

/// One selectable option.
#[derive(Clone, Debug)]
pub struct SelectOption {
    /// The host's identifier of the option's element id.
    pub id: u64,
    /// The host's identifier of the option's value.
    pub value: u64,
    /// The visible label.
    pub label: String,
    /// An icon before the label.
    pub icon: Option<IconSource>,
    /// A description under the label.
    pub description: Option<String>,
    /// The accessible name, if it differs from the label.
    pub aria_label: Option<String>,
    /// The accessible description, if it differs from the description.
    pub aria_description: Option<String>,
    /// Disabled (by the user, or because an earlier option has its id or value).
    pub disabled: bool,
    /// First option with its id and its value.
    pub canonical: bool,
}

/// The accessible name of an option: its accessible label, else its label.
pub open spec fn option_name(o: SelectOption) -> Seq<char> {
    match o.aria_label {
        Some(a) => a@,
        None => o.label@,
    }
}

impl SelectOption {
    /// An enabled option with an id, a value and a label.
    pub fn new(id: u64, value: u64, label: &str) -> (r: SelectOption)
        ensures
            r.id == id,
            r.value == value,
            r.label@ == label@,
            r.icon is None,
            r.description is None,
            r.aria_label is None,
            r.aria_description is None,
            !r.disabled,
            r.canonical,
    {
        SelectOption {
            id,
            value,
            label: label.to_string(),
            icon: None,
            description: None,
            aria_label: None,
            aria_description: None,
            disabled: false,
            canonical: true,
        }
    }

    /// Sets the icon.
    pub fn icon(self, icon: IconSource) -> (r: SelectOption)
        ensures
            r.icon matches Some(i) && i@ == icon@,
            r.id == self.id && r.value == self.value && r.label == self.label,
            r.aria_label == self.aria_label && r.disabled == self.disabled,
    {
        SelectOption { icon: Some(icon), ..self }
    }

    /// Sets the description.
    pub fn description(self, description: &str) -> (r: SelectOption)
        ensures
            r.description matches Some(d) && d@ == description@,
            r.id == self.id && r.value == self.value && r.label == self.label,
            r.aria_label == self.aria_label && r.disabled == self.disabled,
    {
        SelectOption { description: Some(description.to_string()), ..self }
    }

    /// Sets the accessible name.
    pub fn aria_label(self, label: &str) -> (r: SelectOption)
        ensures
            r.aria_label matches Some(a) && a@ == label@,
            r.id == self.id && r.value == self.value && r.label == self.label,
            r.disabled == self.disabled,
    {
        SelectOption { aria_label: Some(label.to_string()), ..self }
    }

    /// Sets the accessible description.
    pub fn aria_description(self, description: &str) -> (r: SelectOption)
        ensures
            r.aria_description matches Some(d) && d@ == description@,
            r.id == self.id && r.value == self.value && r.label == self.label,
            r.aria_label == self.aria_label && r.disabled == self.disabled,
    {
        SelectOption { aria_description: Some(description.to_string()), ..self }
    }

    /// The option's id.
    pub fn id(&self) -> (r: u64)
        ensures
            r == self.id,
    {
        self.id
    }

    /// The accessible name.
    pub fn accessible_label(&self) -> (r: String)
        ensures
            r@ == option_name(*self),
    {
        match &self.aria_label {
            Some(a) => a.clone(),
            None => self.label.clone(),
        }
    }

    /// The accessible description: the explicit one, else the description.
    pub fn accessible_description(&self) -> (r: Option<String>)
        ensures
            match r {
                Some(d) => ((self.aria_description matches Some(a) && d@ == a@) || (
                self.aria_description is None && (self.description matches Some(x) && d@ == x@))),
                None => self.aria_description is None && self.description is None,
            },
    {
        match &self.aria_description {
            Some(a) => Some(a.clone()),
            None => match &self.description {
                Some(d) => Some(d.clone()),
                None => None,
            },
        }
    }
}

impl Disableable for SelectOption {
    fn disabled(self, disabled: bool) -> (r: SelectOption)
        ensures
            r.disabled == disabled,
            r.id == self.id && r.value == self.value && r.label == self.label,
            r.aria_label == self.aria_label && r.canonical == self.canonical,
    {
        SelectOption { disabled, ..self }
    }
}

/// The title row of a group.
#[derive(Clone, Debug)]
pub struct SelectGroupHeader {
    /// The host's identifier of the row's element id.
    pub id: u64,
    /// The visible title.
    pub label: String,
    /// The accessible name, if it differs.
    pub aria_label: Option<String>,
}

impl SelectGroupHeader {
    /// A title row.
    pub fn new(id: u64, label: &str) -> (r: SelectGroupHeader)
        ensures
            r.id == id,
            r.label@ == label@,
            r.aria_label is None,
    {
        SelectGroupHeader { id, label: label.to_string(), aria_label: None }
    }

    /// Sets the accessible name.
    pub fn aria_label(self, label: &str) -> (r: SelectGroupHeader)
        ensures
            r.id == self.id,
            r.label == self.label,
            r.aria_label matches Some(a) && a@ == label@,
    {
        SelectGroupHeader { aria_label: Some(label.to_string()), ..self }
    }

    /// The row's id.
    pub fn id(&self) -> (r: u64)
        ensures
            r == self.id,
    {
        self.id
    }

    /// The accessible name.
    pub fn accessible_label(&self) -> (r: String)
        ensures
            r@ == (match self.aria_label {
                Some(a) => a@,
                None => self.label@,
            }),
    {
        match &self.aria_label {
            Some(a) => a.clone(),
            None => self.label.clone(),
        }
    }
}

/// A row of a select's list: an option or a group title.
#[derive(Clone, Debug)]
pub enum SelectEntry {
    /// A selectable option.
    Option(SelectOption),
    /// A group title, skipped by selection and keyboard navigation.
    Group(SelectGroupHeader),
}

/// The id of a row.
pub open spec fn entry_id(e: SelectEntry) -> u64 {
    match e {
        SelectEntry::Option(o) => o.id,
        SelectEntry::Group(g) => g.id,
    }
}

impl SelectEntry {
    /// The row's id.
    pub fn id(&self) -> (r: u64)
        ensures
            r == entry_id(*self),
    {
        match self {
            SelectEntry::Option(o) => o.id,
            SelectEntry::Group(g) => g.id,
        }
    }
}

/// A titled group of options.
#[derive(Debug)]
pub struct SelectGroup {
    /// The host's identifier of the group's element id.
    pub id: u64,
    /// The visible title.
    pub label: String,
    /// The accessible name, if it differs.
    pub aria_label: Option<String>,
    /// The options, in order.
    pub options: Vec<SelectOption>,
}

impl SelectGroup {
    /// An empty group.
    pub fn new(id: u64, label: &str) -> (r: SelectGroup)
        ensures
            r.id == id,
            r.label@ == label@,
            r.aria_label is None,
            r.options@.len() == 0,
    {
        SelectGroup { id, label: label.to_string(), aria_label: None, options: Vec::new() }
    }

    /// Sets the accessible name.
    pub fn aria_label(self, label: &str) -> (r: SelectGroup)
        ensures
            r.id == self.id,
            r.aria_label matches Some(a) && a@ == label@,
            r.options == self.options,
    {
        SelectGroup { aria_label: Some(label.to_string()), ..self }
    }

    /// Adds an option at the end.
    pub fn option(self, option: SelectOption) -> (r: SelectGroup)
        ensures
            r.id == self.id,
            r.options@ == self.options@.push(option),
    {
        let mut r = self;
        r.options.push(option);
        r
    }

    /// The group's id.
    pub fn id(&self) -> (r: u64)
        ensures
            r == self.id,
    {
        self.id
    }
}

/// A top-level child of a select: an option or a group of options.
#[derive(Debug)]
pub enum SelectChild {
    /// A top-level option.
    Option(SelectOption),
    /// A titled group.
    Group(SelectGroup),
}

/// The title row of a group.
pub open spec fn header_of(g: SelectGroup) -> SelectGroupHeader {
    SelectGroupHeader { id: g.id, label: g.label, aria_label: g.aria_label }
}

} // verus!
