//! What can go wrong between a stored value and an entity.

use vstd::prelude::*;

verus! {

/// The kinds of entity.
#[derive(Clone, Copy, Debug, PartialEq, Eq, Structural)]
pub enum Kind {
    Bridge,
    VirtualMachine,
}

/// The keys that the store and the migrations look for.
#[derive(Clone, Copy, Debug, PartialEq, Eq, Structural)]
pub enum Key {
    ApiVersion,
    Kind,
    Metadata,
    Name,
    Spec,
    Disk,
}

/// The parts of an entity that have a shape of their own.
#[derive(Clone, Copy, Debug, PartialEq, Eq, Structural)]
pub enum Field {
    ApiVersion,
    Kind,
    Metadata,
    Name,
    Spec,
    Address,
    DnsZone,
    DnsServer,
    Cpus,
    Memory,
    Disks,
    Ip,
    Mac,
    Bridge,
}

#[allow(inconsistent_fields)]
#[derive(Clone, Debug, PartialEq, Eq)]
pub enum Error {
    /// A part of the value has not the type that the entity asks for.
    Serialize(Field),
    /// The value, or a part that must be one, is no object.
    NotAnObject,
    /// A part of the entity has not the shape that its schema asks for.
    SerializeValidation(Field),
    /// A key is missing, or what stands under it is no text.
    MissingKey(Key),
    /// No migration begins at the version that the value is in.
    FailedMigration { kind: Kind, from: String },
    /// The value is in the current version already.
    NoMigrationAvailable { kind: Kind },
    /// The store failed.
    Storage(String),
    /// The store holds an entity of that kind and name already.
    KeyExists { kind: String, name: String },
    /// The store holds no such entity.
    NotFound,
}

#[allow(inconsistent_fields)]
pub enum ErrorView {
    Serialize(Field),
    NotAnObject,
    SerializeValidation(Field),
    MissingKey(Key),
    FailedMigration { kind: Kind, from: Seq<char> },
    NoMigrationAvailable { kind: Kind },
    Storage(Seq<char>),
    KeyExists { kind: Seq<char>, name: Seq<char> },
    NotFound,
}

impl View for Error {
    type V = ErrorView;

    open spec fn view(&self) -> ErrorView {
        match self {
            Error::Serialize(f) => ErrorView::Serialize(*f),
            Error::NotAnObject => ErrorView::NotAnObject,
            Error::SerializeValidation(f) => ErrorView::SerializeValidation(*f),
            Error::MissingKey(k) => ErrorView::MissingKey(*k),
            Error::FailedMigration { kind, from } => ErrorView::FailedMigration {
                kind: *kind,
                from: from@,
            },
            Error::NoMigrationAvailable { kind } => ErrorView::NoMigrationAvailable { kind: *kind },
            Error::Storage(s) => ErrorView::Storage(s@),
            Error::KeyExists { kind, name } => ErrorView::KeyExists { kind: kind@, name: name@ },
            Error::NotFound => ErrorView::NotFound,
        }
    }
}

impl Key {
    /// The key as it stands in a value.
    pub open spec fn text_of(self) -> Seq<char> {
        match self {
            Key::ApiVersion => "apiVersion"@,
            Key::Kind => "kind"@,
            Key::Metadata => "metadata"@,
            Key::Name => "name"@,
            Key::Spec => "spec"@,
            Key::Disk => "disk"@,
        }
    }

    /// The key as it stands in a value.
    pub fn text(self) -> (r: &'static str)
        ensures
            r@ == self.text_of(),
    {
        match self {
            Key::ApiVersion => "apiVersion",
            Key::Kind => "kind",
            Key::Metadata => "metadata",
            Key::Name => "name",
            Key::Spec => "spec",
            Key::Disk => "disk",
        }
    }
}

impl Kind {
    /// The literal name of the kind.
    pub open spec fn name_of(self) -> Seq<char> {
        match self {
            Kind::Bridge => "Bridge"@,
            Kind::VirtualMachine => "VirtualMachine"@,
        }
    }

    /// The version in which entities of the kind are handed out.
    pub open spec fn current_version(self) -> Seq<char> {
        match self {
            Kind::Bridge => "v1alpha1"@,
            Kind::VirtualMachine => "v1alpha3"@,
        }
    }
    /// The literal name of the kind, as it stands in values and in keys.

    pub fn name(self) -> (r: &'static str)
        ensures
            r@ == self.name_of(),
    {
        match self {
            Kind::Bridge => "Bridge",
            Kind::VirtualMachine => "VirtualMachine",
        }
    }
    /// The version in which entities of the kind are handed out.

    pub fn api_version(self) -> (r: &'static str)
        ensures
            r@ == self.current_version(),
    {
        match self {
            Kind::Bridge => "v1alpha1",
            Kind::VirtualMachine => "v1alpha3",
        }
    }
}

/// The view of a result whose two sides have views.
pub open spec fn result_view<T: View, E: View>(r: Result<T, E>) -> Result<T::V, E::V> {
    match r {
        Ok(t) => Ok(t@),
        Err(e) => Err(e@),
    }
}

} // verus!
