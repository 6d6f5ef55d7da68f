//! The plain button of the settings pages, as a builder.
use vstd::prelude::*;

verus! {

/// A settings button: an identifier, an optional label and an optional
/// click handler `H`.
pub struct SettingsButton<H> {
    pub id: String,
    pub label: Option<String>,
    pub on_click: Option<H>,
}

impl<H> SettingsButton<H> {
    /// A button without label and without click handler.
    pub fn new(id: &str) -> (b: Self)
        ensures
            b.id@ == id@,
            b.label is None,
            b.on_click is None,
    {
        SettingsButton { id: id.to_owned(), label: None, on_click: None }
    }

    /// The same button with the label `label`.
    pub fn label(self, label: &str) -> (b: Self)
        ensures
            b.id == self.id,
            b.label matches Some(l) && l@ == label@,
            b.on_click == self.on_click,
    {
        SettingsButton { label: Some(label.to_owned()), ..self }
    }

    /// The same button with `handler` run on a click.
    pub fn on_click(self, handler: H) -> (b: Self)
        ensures
            b.id == self.id,
            b.label == self.label,
            b.on_click == Some(handler),
    {
        SettingsButton { on_click: Some(handler), ..self }
    }
}

} // verus!
