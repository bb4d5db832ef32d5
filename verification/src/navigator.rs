//! What a page learns of the browser it runs in.

use vstd::prelude::*;

verus! {

/// One media type that a plugin handles. The browser has no plugins, so
/// no value of this type is ever handed out.
#[derive(Clone, Copy, Debug, PartialEq, Eq, Structural)]
pub struct MimeType {}

/// The media types that plugins handle: there are none.
#[derive(Clone, Copy, Debug, PartialEq, Eq, Structural)]
pub struct MimeTypeArray {}

impl MimeTypeArray {
    /// Creates the list.
    pub fn new() -> (list: MimeTypeArray) {
        MimeTypeArray {  }
    }

    /// The number of media types.
    pub fn length(&self) -> (length: u32)
        ensures
            length == 0,
    {
        0
    }

    /// The media type at `index`: there is none at any index.
    pub fn item(&self, index: u32) -> (found: Option<MimeType>)
        ensures
            found is None,
    {
        None
    }

    /// The media type of the given name: there is none of any name.
    pub fn named_item(&self, name: &str) -> (found: Option<MimeType>)
        ensures
            found is None,
    {
        None
    }

    /// The names under which media types can be looked up.
    pub fn supported_property_names(&self) -> (names: Vec<String>)
        ensures
            names@.len() == 0,
    {
        Vec::new()
    }
}

/// The plugins of the browser: there are none.
#[derive(Clone, Copy, Debug, PartialEq, Eq, Structural)]
pub struct PluginArray {}

/// The navigator of a window. Its two lists come into being when a page
/// first asks for them and stay the same from then on.
pub struct Navigator {
    plugins: Option<PluginArray>,
    mime_types: Option<MimeTypeArray>,
}

impl Navigator {
    /// Whether the list of plugins has been asked for.
    pub closed spec fn has_plugins(&self) -> bool {
        self.plugins is Some
    }

    /// Whether the list of media types has been asked for.
    pub closed spec fn has_mime_types(&self) -> bool {
        self.mime_types is Some
    }

    /// Creates a navigator of which nothing has been asked yet.
    pub fn new_inherited() -> (navigator: Navigator)
        ensures
            !navigator.has_plugins(),
            !navigator.has_mime_types(),
    {
        Navigator { plugins: None, mime_types: None }
    }

    /// The list of plugins, created on first use.
    pub fn plugins(&mut self) -> (list: PluginArray)
        ensures
            final(self).has_plugins(),
            final(self).has_mime_types() == old(self).has_mime_types(),
    {
        match self.plugins {
            Some(list) => list,
            None => {
                let list = PluginArray {  };
                self.plugins = Some(list);
                list
            },
        }
    }

    /// The list of media types, created on first use.
    pub fn mime_types(&mut self) -> (list: MimeTypeArray)
        ensures
            final(self).has_mime_types(),
            final(self).has_plugins() == old(self).has_plugins(),
    {
        match self.mime_types {
            Some(list) => list,
            None => {
                let list = MimeTypeArray::new();
                self.mime_types = Some(list);
                list
            },
        }
    }

    /// Whether Java is available: it never is.
    pub fn java_enabled(&self) -> (enabled: bool)
        ensures
            !enabled,
    {
        false
    }

    /// Whether cookies are stored: they always are.
    pub fn cookie_enabled(&self) -> (enabled: bool)
        ensures
            enabled,
    {
        true
    }
}

} // verus!
