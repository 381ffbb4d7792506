//! The identifiers of the graphics resources that an extraction owns.
//!
//! The operating system names a resource by a pointer-sized value. Two
//! values name nothing: zero and minus one. A call that is meant to create
//! or bind a resource reports its failure by returning one of them.

use crate::exchange::OsReply;
use vstd::prelude::*;

verus! {

/// Whether `raw` names nothing: the operating system hands out zero or minus
/// one in place of a resource when a call fails.
pub open spec fn raw_is_invalid(raw: isize) -> bool {
    raw == 0 || raw == -1
}

/// Whether `raw` names nothing.
pub fn is_invalid_raw(raw: isize) -> (invalid: bool)
    ensures
        invalid == raw_is_invalid(raw),
{
    raw == 0 || raw == -1
}

/// The identifier of a rendering context.
#[derive(Clone, Copy, Debug, PartialEq, Eq, Structural)]
pub struct DeviceContextHandle(pub isize);

/// The identifier of a font object.
#[derive(Clone, Copy, Debug, PartialEq, Eq, Structural)]
pub struct FontObjectHandle(pub isize);

/// The identifier of whatever object was bound in a context's font slot.
#[derive(Clone, Copy, Debug, PartialEq, Eq, Structural)]
pub struct GdiObjectHandle(pub isize);

impl DeviceContextHandle {
    /// Whether this identifier names something.
    pub open spec fn is_valid(self) -> bool {
        !raw_is_invalid(self.0)
    }

    /// The context that a creation call returned, if it returned one: the
    /// answer must be an identifier, and must name something.
    pub fn acquire(reply: &OsReply) -> (handle: Option<DeviceContextHandle>)
        ensures
            handle == (match reply@.valid_handle() {
                Some(raw) => Some(DeviceContextHandle(raw)),
                None => None,
            }),
    {
        match reply.valid_handle() {
            Some(raw) => Some(DeviceContextHandle(raw)),
            None => None,
        }
    }
}

impl FontObjectHandle {
    /// Whether this identifier names something.
    pub open spec fn is_valid(self) -> bool {
        !raw_is_invalid(self.0)
    }

    /// The font object that a creation call returned, if it returned one:
    /// the answer must be an identifier, and must name something.
    pub fn create(reply: &OsReply) -> (handle: Option<FontObjectHandle>)
        ensures
            handle == (match reply@.valid_handle() {
                Some(raw) => Some(FontObjectHandle(raw)),
                None => None,
            }),
    {
        match reply.valid_handle() {
            Some(raw) => Some(FontObjectHandle(raw)),
            None => None,
        }
    }
}

impl GdiObjectHandle {
    /// Whether this identifier names something.
    pub open spec fn is_valid(self) -> bool {
        !raw_is_invalid(self.0)
    }
}

/// A font bound into a context, with what the binding displaced.
///
/// While a scope is open the context's font slot holds `font`. Closing the
/// scope binds `previous` again.
#[derive(Clone, Copy, Debug, PartialEq, Eq, Structural)]
pub struct FontSelectionScope {
    /// The context whose font slot was changed.
    pub context: DeviceContextHandle,
    /// The font now bound.
    pub font: FontObjectHandle,
    /// The object that was bound before, to be bound again on close.
    pub previous: GdiObjectHandle,
}

impl FontSelectionScope {
    /// Whether every identifier of the scope names something.
    pub open spec fn is_valid(self) -> bool {
        &&& self.context.is_valid()
        &&& self.font.is_valid()
        &&& self.previous.is_valid()
    }

    /// The scope that a binding call opened, if it bound anything. The call
    /// returns the displaced object. Where it returns an identifier that
    /// names nothing, or no identifier at all, the slot was left as it was
    /// and there is no scope to close.
    pub fn open(
        context: DeviceContextHandle,
        font: FontObjectHandle,
        reply: &OsReply,
    ) -> (scope: Option<FontSelectionScope>)
        ensures
            scope == (match reply@.valid_handle() {
                Some(raw) => Some(
                    FontSelectionScope { context, font, previous: GdiObjectHandle(raw) },
                ),
                None => None,
            }),
    {
        match reply.valid_handle() {
            Some(raw) => Some(FontSelectionScope { context, font, previous: GdiObjectHandle(raw) }),
            None => None,
        }
    }
}

/// A resource that an extraction has acquired and must give back.
#[derive(Clone, Copy, Debug, PartialEq, Eq, Structural)]
pub enum Resource {
    /// A rendering context, given back by destroying it.
    Context(DeviceContextHandle),
    /// A font object, given back by destroying it.
    Font(FontObjectHandle),
    /// A font binding, given back by binding the displaced object again.
    Selection(FontSelectionScope),
}

impl FontSelectionScope {
    /// What an extraction holds while the scope is open: the context, the
    /// font object and the binding, in the order of their acquisition.
    pub fn holdings(&self) -> (held: Vec<Resource>)
        ensures
            held@ == scope_holdings(*self),
    {
        vec![Resource::Context(self.context), Resource::Font(self.font), Resource::Selection(*self)]
    }
}

impl Resource {
    /// Whether every identifier in this resource names something.
    pub open spec fn is_valid(self) -> bool {
        match self {
            Resource::Context(context) => context.is_valid(),
            Resource::Font(font) => font.is_valid(),
            Resource::Selection(scope) => scope.is_valid(),
        }
    }
}

/// What an extraction holds once it has bound its font: the context, the
/// font object and the binding, in the order of their acquisition.
pub open spec fn scope_holdings(scope: FontSelectionScope) -> Seq<Resource> {
    seq![Resource::Context(scope.context), Resource::Font(scope.font), Resource::Selection(scope)]
}

} // verus!
