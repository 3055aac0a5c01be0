//! The application record shared by discovery, the catalog and its payloads.
use vstd::prelude::*;

use crate::icon::{bytes_of, icon_path_to_base64, icon_payload, text_option};

verus! {

/// One application: its name, icon container path, bundle path, executable
/// path and, once resolved, the base64 PNG payload of its icon.
pub struct AppReference {
    pub name: String,
    pub icon: Option<String>,
    pub path: String,
    pub executable_path: Option<String>,
    pub icon_base64: Option<String>,
}

/// A copy of an optional string.
fn copy_text(o: &Option<String>) -> (r: Option<String>)
    ensures
        r == *o,
{
    match o {
        Some(s) => Some(s.clone()),
        None => None,
    }
}

impl AppReference {
    /// A record as discovery reports it, with no payload yet.
    pub fn new(
        name: String,
        icon: Option<String>,
        path: String,
        executable_path: Option<String>,
    ) -> (r: Self)
        ensures
            r.name == name,
            r.icon == icon,
            r.path == path,
            r.executable_path == executable_path,
            r.icon_base64 is None,
    {
        AppReference { name, icon, path, executable_path, icon_base64: None }
    }

    /// The empty record: empty name and path, nothing else.
    pub fn default() -> (r: Self)
        ensures
            r.name@ == Seq::<char>::empty(),
            r.path@ == Seq::<char>::empty(),
            r.icon is None,
            r.executable_path is None,
            r.icon_base64 is None,
    {
        AppReference {
            name: String::new(),
            icon: None,
            path: String::new(),
            executable_path: None,
            icon_base64: None,
        }
    }

    /// A field-for-field copy.
    pub fn copy(&self) -> (r: Self)
        ensures
            r == *self,
    {
        AppReference {
            name: self.name.clone(),
            icon: copy_text(&self.icon),
            path: self.path.clone(),
            executable_path: copy_text(&self.executable_path),
            icon_base64: copy_text(&self.icon_base64),
        }
    }

    /// The payload of this record's icon, given the bytes read from its icon
    /// path (`None` when they could not be read): absent without an icon path
    /// and on any extraction failure.
    pub fn get_icon_base64(&self, container: Option<&[u8]>) -> (r: Option<String>)
        ensures
            self.icon is None ==> r is None,
            self.icon is Some ==> text_option(r) == icon_payload(bytes_of(container)),
    {
        if self.icon.is_none() {
            return None;
        }
        icon_path_to_base64(container)
    }

    /// This record with its payload resolved from the given container bytes.
    pub fn with_icon_base64(self, container: Option<&[u8]>) -> (r: Self)
        ensures
            r.name == self.name,
            r.icon == self.icon,
            r.path == self.path,
            r.executable_path == self.executable_path,
            self.icon is None ==> r.icon_base64 is None,
            self.icon is Some ==> text_option(r.icon_base64) == icon_payload(bytes_of(container)),
    {
        let mut this = self;
        this.icon_base64 = this.get_icon_base64(container);
        this
    }
}

/// The payload of an application's icon, as `AppReference::get_icon_base64`.
pub fn get_app_icon_base64(app: &AppReference, container: Option<&[u8]>) -> (r: Option<String>)
    ensures
        app.icon is None ==> r is None,
        app.icon is Some ==> text_option(r) == icon_payload(bytes_of(container)),
{
    app.get_icon_base64(container)
}

} // verus!
