//! The four message shapes of the SDK interface. They carry no behaviour:
//! all are ephemeral request or response payloads. Each type with string
//! fields has a mathematical view so that contracts can speak of its
//! contents, and a `duplicate` method that is known to preserve that view.

use vstd::prelude::*;

verus! {

/// Request of the idempotent calls and element of the health stream.
#[derive(Clone, Copy, PartialEq, Eq, Structural, Debug)]
pub struct Empty {}

/// Identity of the game server as the remote side reports it.
#[derive(Clone, Debug)]
pub struct ObjectMeta {
    pub name: String,
    pub uid: String,
    pub creation_timestamp: u64,
}

/// Lifecycle state of the game server as the remote side reports it.
#[derive(Clone, Debug)]
pub struct GameServerStatus {
    pub state: String,
}

/// Full state snapshot produced by the remote side; read-only here.
#[derive(Clone, Debug)]
pub struct GameServer {
    pub object_meta: ObjectMeta,
    pub status: GameServerStatus,
}

/// A single key/value update for the label and annotation calls.
#[derive(Clone, Debug)]
pub struct KeyValue {
    pub key: String,
    pub value: String,
}

/// A requested reservation hold, as a count of seconds.
#[derive(Clone, Copy, PartialEq, Eq, Structural, Debug)]
pub struct Duration {
    pub seconds: u64,
}

pub struct ObjectMetaView {
    pub name: Seq<char>,
    pub uid: Seq<char>,
    pub creation_timestamp: u64,
}

pub struct GameServerView {
    pub name: Seq<char>,
    pub uid: Seq<char>,
    pub creation_timestamp: u64,
    pub state: Seq<char>,
}

pub struct KeyValueView {
    pub key: Seq<char>,
    pub value: Seq<char>,
}

impl View for ObjectMeta {
    type V = ObjectMetaView;

    open spec fn view(&self) -> ObjectMetaView {
        ObjectMetaView {
            name: self.name@,
            uid: self.uid@,
            creation_timestamp: self.creation_timestamp,
        }
    }
}

impl View for GameServer {
    type V = GameServerView;

    open spec fn view(&self) -> GameServerView {
        GameServerView {
            name: self.object_meta.name@,
            uid: self.object_meta.uid@,
            creation_timestamp: self.object_meta.creation_timestamp,
            state: self.status.state@,
        }
    }
}

impl View for KeyValue {
    type V = KeyValueView;

    open spec fn view(&self) -> KeyValueView {
        KeyValueView { key: self.key@, value: self.value@ }
    }
}

impl ObjectMeta {
    /// An explicit copy whose view is known to match the source value's.
    pub fn duplicate(&self) -> (r: Self)
        ensures
            r@ == self@,
    {
        ObjectMeta {
            name: self.name.clone(),
            uid: self.uid.clone(),
            creation_timestamp: self.creation_timestamp,
        }
    }
}

impl GameServerStatus {
    /// An explicit copy whose state string is known to match the source value's.
    pub fn duplicate(&self) -> (r: Self)
        ensures
            r.state@ == self.state@,
    {
        GameServerStatus { state: self.state.clone() }
    }
}

impl GameServer {
    /// An explicit copy whose view is known to match the source value's.
    pub fn duplicate(&self) -> (r: Self)
        ensures
            r@ == self@,
    {
        GameServer { object_meta: self.object_meta.duplicate(), status: self.status.duplicate() }
    }
}

impl KeyValue {
    /// An explicit copy whose view is known to match the source value's.
    pub fn duplicate(&self) -> (r: Self)
        ensures
            r@ == self@,
    {
        KeyValue { key: self.key.clone(), value: self.value.clone() }
    }
}

} // verus!
