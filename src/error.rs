use vstd::prelude::*;

verus! {

/// What can go wrong on either side of a call.
///
/// The order of the variants is part of the wire format: a variant travels as
/// its position.
#[derive(Debug, PartialEq, Eq)]
pub enum DemoniteErr {
    /// The codec could not encode or decode a value.
    Serialize(String),
    /// A socket or file-system operation failed.
    Io(String),
    /// The runtime directory variable could not be read.
    EnvVar(String),
    /// The runtime directory is not owner-only; carries the mode found.
    XdgRuntimeDirInvPerm(u32),
    /// The runtime directory does not exist.
    XdgRuntimeDirMissing,
    /// Another instance of the service answers on its socket.
    AlreadyRunning,
}

/// The mathematical value of a [`DemoniteErr`]: texts as character sequences.
pub enum ErrView {
    Serialize(Seq<char>),
    Io(Seq<char>),
    EnvVar(Seq<char>),
    XdgRuntimeDirInvPerm(u32),
    XdgRuntimeDirMissing,
    AlreadyRunning,
}

impl View for DemoniteErr {
    type V = ErrView;

    open spec fn view(&self) -> ErrView {
        match self {
            DemoniteErr::Serialize(m) => ErrView::Serialize(m@),
            DemoniteErr::Io(m) => ErrView::Io(m@),
            DemoniteErr::EnvVar(m) => ErrView::EnvVar(m@),
            DemoniteErr::XdgRuntimeDirInvPerm(mode) => ErrView::XdgRuntimeDirInvPerm(*mode),
            DemoniteErr::XdgRuntimeDirMissing => ErrView::XdgRuntimeDirMissing,
            DemoniteErr::AlreadyRunning => ErrView::AlreadyRunning,
        }
    }
}

} // verus!
