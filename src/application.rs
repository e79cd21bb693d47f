//! The failure returned by every public cross-subsystem operation.
use std::borrow::Cow;
use vstd::prelude::*;
use vstd::std_specs::convert::FromSpec;

use crate::database::DieselError;
use crate::lock::LockError;

verus! {

/// The receiving end of a channel found the channel closed.
#[verifier::external_type_specification]
#[verifier::external_body]
pub struct ExRecvError(std::sync::mpsc::RecvError);

/// A failure of the binary serialization layer.
#[verifier::external_type_specification]
#[verifier::external_body]
pub struct ExCapnpError(capnp::Error);

/// A failure of generic input and output.
#[verifier::external_type_specification]
#[verifier::external_body]
pub struct ExIoError(std::io::Error);

/// The failure of an operation of the system, `K` being the key index's own
/// error and `B` the blob store's. Every variant but `Message` holds the
/// original error as its cause.
#[derive(Debug)]
pub enum HatError<K, B> {
    /// A channel closed while a message was awaited.
    Recv(std::sync::mpsc::RecvError),
    /// The key index failed.
    Keys(K),
    /// The blob store failed.
    Blobs(B),
    /// Encoded data was malformed or incompatible.
    DataSerialization(capnp::Error),
    /// Input or output failed.
    IO(std::io::Error),
    /// A failure with no structured cause, described in words.
    Message(Cow<'static, str>),
    /// A lock acquisition failed.
    LockError(LockError),
    /// The relational store failed.
    DieselError(DieselError),
}

impl<K, B> HatError<K, B> {
    /// The channel error this failure wraps, if it is a receive failure.
    pub open spec fn recv_cause_spec(&self) -> Option<&std::sync::mpsc::RecvError> {
        match self {
            HatError::Recv(e) => Some(e),
            _ => None,
        }
    }

    /// The key index's error this failure wraps, if it is one.
    pub open spec fn keys_cause_spec(&self) -> Option<&K> {
        match self {
            HatError::Keys(e) => Some(e),
            _ => None,
        }
    }

    /// The blob store's error this failure wraps, if it is one.
    pub open spec fn blobs_cause_spec(&self) -> Option<&B> {
        match self {
            HatError::Blobs(e) => Some(e),
            _ => None,
        }
    }

    /// The serialization error this failure wraps, if it is one.
    pub open spec fn serialization_cause_spec(&self) -> Option<&capnp::Error> {
        match self {
            HatError::DataSerialization(e) => Some(e),
            _ => None,
        }
    }

    /// The input or output error this failure wraps, if it is one.
    pub open spec fn io_cause_spec(&self) -> Option<&std::io::Error> {
        match self {
            HatError::IO(e) => Some(e),
            _ => None,
        }
    }

    /// The relational store's failure this failure wraps, if it is one.
    pub open spec fn diesel_cause_spec(&self) -> Option<&DieselError> {
        match self {
            HatError::DieselError(e) => Some(e),
            _ => None,
        }
    }

    /// The lock failure this failure wraps, if it is one.
    pub open spec fn lock_cause_spec(&self) -> Option<LockError> {
        match self {
            HatError::LockError(e) => Some(*e),
            _ => None,
        }
    }

    /// The text of a `Message` failure.
    pub open spec fn message_spec(&self) -> Option<Seq<char>> {
        match self {
            HatError::Message(m) => Some(m@),
            _ => None,
        }
    }

    /// Whether the failure holds an underlying error as its cause.
    pub open spec fn has_cause_spec(&self) -> bool {
        match self {
            HatError::Recv(_) => true,
            HatError::Keys(_) => true,
            HatError::Blobs(_) => true,
            HatError::DataSerialization(_) => true,
            HatError::IO(_) => true,
            HatError::Message(_) => false,
            HatError::LockError(_) => true,
            HatError::DieselError(_) => true,
        }
    }

    /// The channel error this failure wraps, if it is a receive failure.
    pub fn recv_cause(&self) -> (r: Option<&std::sync::mpsc::RecvError>)
        ensures
            r == self.recv_cause_spec(),
    {
        match self {
            HatError::Recv(e) => Some(e),
            _ => None,
        }
    }

    /// The key index's error this failure wraps, if it is one.
    pub fn keys_cause(&self) -> (r: Option<&K>)
        ensures
            r == self.keys_cause_spec(),
    {
        match self {
            HatError::Keys(e) => Some(e),
            _ => None,
        }
    }

    /// The blob store's error this failure wraps, if it is one.
    pub fn blobs_cause(&self) -> (r: Option<&B>)
        ensures
            r == self.blobs_cause_spec(),
    {
        match self {
            HatError::Blobs(e) => Some(e),
            _ => None,
        }
    }

    /// The serialization error this failure wraps, if it is one.
    pub fn serialization_cause(&self) -> (r: Option<&capnp::Error>)
        ensures
            r == self.serialization_cause_spec(),
    {
        match self {
            HatError::DataSerialization(e) => Some(e),
            _ => None,
        }
    }

    /// The input or output error this failure wraps, if it is one.
    pub fn io_cause(&self) -> (r: Option<&std::io::Error>)
        ensures
            r == self.io_cause_spec(),
    {
        match self {
            HatError::IO(e) => Some(e),
            _ => None,
        }
    }

    /// The relational store's failure this failure wraps, if it is one.
    pub fn diesel_cause(&self) -> (r: Option<&DieselError>)
        ensures
            r == self.diesel_cause_spec(),
    {
        match self {
            HatError::DieselError(e) => Some(e),
            _ => None,
        }
    }

    /// The lock failure this failure wraps, if it is one.
    pub fn lock_cause(&self) -> (r: Option<LockError>)
        ensures
            r == self.lock_cause_spec(),
    {
        match self {
            HatError::LockError(e) => Some(*e),
            _ => None,
        }
    }

    /// The text of a `Message` failure, whether it was built from a literal
    /// or from an owned string.
    pub fn message(&self) -> (r: Option<&str>)
        ensures
            r is Some <==> self.message_spec() is Some,
            r matches Some(t) ==> self.message_spec() == Some(t@),
    {
        match self {
            HatError::Message(Cow::Borrowed(s)) => Some(*s),
            HatError::Message(Cow::Owned(s)) => Some(s.as_str()),
            _ => None,
        }
    }

    /// Whether the failure holds an underlying error as its cause: every
    /// kind does but `Message`.
    pub fn has_cause(&self) -> (r: bool)
        ensures
            r == self.has_cause_spec(),
            r == !(self is Message),
    {
        match self {
            HatError::Recv(_) => true,
            HatError::Keys(_) => true,
            HatError::Blobs(_) => true,
            HatError::DataSerialization(_) => true,
            HatError::IO(_) => true,
            HatError::Message(_) => false,
            HatError::LockError(_) => true,
            HatError::DieselError(_) => true,
        }
    }

    /// Wraps an error of the key index.
    pub fn from_keys(e: K) -> (r: HatError<K, B>)
        ensures
            r == HatError::<K, B>::Keys(e),
    {
        HatError::Keys(e)
    }

    /// Wraps an error of the blob store.
    pub fn from_blobs(e: B) -> (r: HatError<K, B>)
        ensures
            r == HatError::<K, B>::Blobs(e),
    {
        HatError::Blobs(e)
    }
}

impl<K, B> From<std::sync::mpsc::RecvError> for HatError<K, B> {
    fn from(e: std::sync::mpsc::RecvError) -> (r: HatError<K, B>) {
        HatError::Recv(e)
    }
}

impl<K, B> vstd::std_specs::convert::FromSpecImpl<std::sync::mpsc::RecvError> for HatError<K, B> {
    open spec fn obeys_from_spec() -> bool {
        true
    }

    open spec fn from_spec(e: std::sync::mpsc::RecvError) -> HatError<K, B> {
        HatError::Recv(e)
    }
}

impl<K, B> From<capnp::Error> for HatError<K, B> {
    fn from(e: capnp::Error) -> (r: HatError<K, B>) {
        HatError::DataSerialization(e)
    }
}

impl<K, B> vstd::std_specs::convert::FromSpecImpl<capnp::Error> for HatError<K, B> {
    open spec fn obeys_from_spec() -> bool {
        true
    }

    open spec fn from_spec(e: capnp::Error) -> HatError<K, B> {
        HatError::DataSerialization(e)
    }
}

impl<K, B> From<std::io::Error> for HatError<K, B> {
    fn from(e: std::io::Error) -> (r: HatError<K, B>) {
        HatError::IO(e)
    }
}

impl<K, B> vstd::std_specs::convert::FromSpecImpl<std::io::Error> for HatError<K, B> {
    open spec fn obeys_from_spec() -> bool {
        true
    }

    open spec fn from_spec(e: std::io::Error) -> HatError<K, B> {
        HatError::IO(e)
    }
}

impl<K, B> From<&'static str> for HatError<K, B> {
    fn from(e: &'static str) -> (r: HatError<K, B>) {
        HatError::Message(Cow::Borrowed(e))
    }
}

impl<K, B> vstd::std_specs::convert::FromSpecImpl<&'static str> for HatError<K, B> {
    open spec fn obeys_from_spec() -> bool {
        true
    }

    open spec fn from_spec(e: &'static str) -> HatError<K, B> {
        HatError::Message(Cow::Borrowed(e))
    }
}

impl<K, B> From<String> for HatError<K, B> {
    fn from(e: String) -> (r: HatError<K, B>) {
        HatError::Message(Cow::Owned(e))
    }
}

impl<K, B> vstd::std_specs::convert::FromSpecImpl<String> for HatError<K, B> {
    open spec fn obeys_from_spec() -> bool {
        true
    }

    open spec fn from_spec(e: String) -> HatError<K, B> {
        HatError::Message(Cow::Owned(e))
    }
}

impl<K, B> From<LockError> for HatError<K, B> {
    fn from(e: LockError) -> (r: HatError<K, B>) {
        HatError::LockError(e)
    }
}

impl<K, B> vstd::std_specs::convert::FromSpecImpl<LockError> for HatError<K, B> {
    open spec fn obeys_from_spec() -> bool {
        true
    }

    open spec fn from_spec(e: LockError) -> HatError<K, B> {
        HatError::LockError(e)
    }
}

impl<K, B> From<DieselError> for HatError<K, B> {
    fn from(e: DieselError) -> (r: HatError<K, B>) {
        HatError::DieselError(e)
    }
}

impl<K, B> vstd::std_specs::convert::FromSpecImpl<DieselError> for HatError<K, B> {
    open spec fn obeys_from_spec() -> bool {
        true
    }

    open spec fn from_spec(e: DieselError) -> HatError<K, B> {
        HatError::DieselError(e)
    }
}

/// Wrapping an error into an application failure keeps it whole: the
/// accessor of the matching kind gives back the original error, and the
/// failure reports that it has a cause.
pub proof fn lemma_cause_round_trip<K, B>(
    recv: std::sync::mpsc::RecvError,
    keys: K,
    blobs: B,
    ser: capnp::Error,
    io: std::io::Error,
    lock: LockError,
    db: DieselError,
)
    ensures
        <HatError<K, B> as FromSpec<std::sync::mpsc::RecvError>>::from_spec(recv).recv_cause_spec()
            == Some(&recv),
        HatError::<K, B>::Keys(keys).keys_cause_spec() == Some(&keys),
        HatError::<K, B>::Blobs(blobs).blobs_cause_spec() == Some(&blobs),
        <HatError<K, B> as FromSpec<capnp::Error>>::from_spec(ser).serialization_cause_spec()
            == Some(&ser),
        <HatError<K, B> as FromSpec<std::io::Error>>::from_spec(io).io_cause_spec() == Some(&io),
        <HatError<K, B> as FromSpec<LockError>>::from_spec(lock).lock_cause_spec() == Some(lock),
        <HatError<K, B> as FromSpec<DieselError>>::from_spec(db).diesel_cause_spec() == Some(&db),
        <HatError<K, B> as FromSpec<std::sync::mpsc::RecvError>>::from_spec(
            recv,
        ).has_cause_spec(),
        HatError::<K, B>::Keys(keys).has_cause_spec(),
        HatError::<K, B>::Blobs(blobs).has_cause_spec(),
        <HatError<K, B> as FromSpec<capnp::Error>>::from_spec(ser).has_cause_spec(),
        <HatError<K, B> as FromSpec<std::io::Error>>::from_spec(io).has_cause_spec(),
        <HatError<K, B> as FromSpec<LockError>>::from_spec(lock).has_cause_spec(),
        <HatError<K, B> as FromSpec<DieselError>>::from_spec(db).has_cause_spec(),
{
}

/// A connection failure wrapped first as a relational-store failure and then
/// as an application failure can still be reached, unchanged, two levels down.
pub proof fn lemma_connection_cause_chain<K, B>(c: diesel::ConnectionError)
    ensures
        ({
            let db = <DieselError as FromSpec<diesel::ConnectionError>>::from_spec(c);
            let app = <HatError<K, B> as FromSpec<DieselError>>::from_spec(db);
            &&& app.diesel_cause_spec() == Some(&db)
            &&& db.connection_cause_spec() == Some(&c)
        }),
{
}

/// A message built from a literal and one built from an owned string read
/// the same when their contents are the same.
pub proof fn lemma_message_depends_on_content<K, B>(s: &'static str, t: String)
    requires
        s@ == t@,
    ensures
        <HatError<K, B> as FromSpec<&'static str>>::from_spec(s).message_spec() == Some(s@),
        <HatError<K, B> as FromSpec<String>>::from_spec(t).message_spec() == Some(t@),
        <HatError<K, B> as FromSpec<&'static str>>::from_spec(s).message_spec() == <HatError<
            K,
            B,
        > as FromSpec<String>>::from_spec(t).message_spec(),
        !<HatError<K, B> as FromSpec<&'static str>>::from_spec(s).has_cause_spec(),
{
}

} // verus!
