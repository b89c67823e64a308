//! Reading the members that an entity must have.

use vstd::prelude::*;
use crate::error::{Error, ErrorView, Key};
use crate::json::{members_view, Json, JsonView, Member};

verus! {

impl Json {
    /// The members of an object; any other value is refused.
    pub fn as_map(&self) -> (r: Result<&Vec<Member>, Error>)
        ensures
            self@ is Object ==> r is Ok && self@ == JsonView::Object(members_view(r->Ok_0@)),
            !(self@ is Object) ==> r is Err && r->Err_0@ == ErrorView::NotAnObject,
    {
        match self.as_object() {
            Some(members) => Ok(members),
            None => Err(Error::NotAnObject),
        }
    }

    /// The value under a key that must be there.
    pub fn get_existing(&self, index: Key) -> (r: Result<&Json, Error>)
        ensures
            match self@.field(index.text_of()) {
                Some(value) => r is Ok && r->Ok_0@ == value,
                None => r is Err && r->Err_0@ == ErrorView::MissingKey(index),
            },
    {
        match self.get(index.text()) {
            Some(value) => Ok(value),
            None => Err(Error::MissingKey(index)),
        }
    }

    /// Whether the value says that it is in the given version: an object
    /// whose `apiVersion` is the text `version`.
    pub fn is_version(&self, version: &str) -> (r: Result<bool, Error>)
        ensures
            !(self@ is Object) ==> r is Err && r->Err_0@ == ErrorView::NotAnObject,
            self@ is Object && self@.field("apiVersion"@) is None ==> r is Err && r->Err_0@
                == ErrorView::MissingKey(Key::ApiVersion),
            self@ is Object && self@.field("apiVersion"@) is Some ==> r is Ok && r->Ok_0 == (
            self@.field("apiVersion"@)->Some_0 == JsonView::Str(version@)),
    {
        if self.as_object().is_none() {
            return Err(Error::NotAnObject);
        }
        match self.get("apiVersion") {
            None => Err(Error::MissingKey(Key::ApiVersion)),
            Some(v) => match v.as_str() {
                Some(s) => Ok(crate::text::same_text(s, version)),
                None => Ok(false),
            },
        }
    }
}

} // verus!
