//! The daemon's configuration and the decisions of its socket edge: the
//! socket, store and policy paths, the socket mode, the frame codecs' size
//! limit, the clients' socket and codec, and whether the public sockets
//! still accept requests. Binding sockets, reading and writing frames and
//! the actor runtime sit at the edge, outside this library.

use vstd::prelude::*;

use crate::error::Error;
use crate::handover::{UpgradeOperation, UpgradeReply};
use crate::policy::{BootstrapPolicySource, PolicySourceView, default_policy_text};
use crate::store::StoreLocation;

verus! {

/// The largest frame body a codec accepts unless told otherwise: one MiB.
pub const DEFAULT_MAXIMUM_FRAME_BYTES: usize = 1048576;

/// The path of a Unix socket.
#[derive(Debug, PartialEq, Eq)]
pub struct SocketPath(String);

/// The path of the record store.
#[derive(Debug, PartialEq, Eq)]
pub struct StorePath(String);

/// The path of a bootstrap policy file.
#[derive(Debug, PartialEq, Eq)]
pub struct BootstrapPolicyPath(String);

impl View for SocketPath {
    type V = Seq<char>;

    closed spec fn view(&self) -> Seq<char> {
        self.0@
    }
}

impl View for StorePath {
    type V = Seq<char>;

    closed spec fn view(&self) -> Seq<char> {
        self.0@
    }
}

impl View for BootstrapPolicyPath {
    type V = Seq<char>;

    closed spec fn view(&self) -> Seq<char> {
        self.0@
    }
}

impl Clone for SocketPath {
    fn clone(&self) -> (path: Self)
        ensures
            path@ == self@,
    {
        SocketPath(self.0.clone())
    }
}

impl Clone for StorePath {
    fn clone(&self) -> (path: Self)
        ensures
            path@ == self@,
    {
        StorePath(self.0.clone())
    }
}

impl Clone for BootstrapPolicyPath {
    fn clone(&self) -> (path: Self)
        ensures
            path@ == self@,
    {
        BootstrapPolicyPath(self.0.clone())
    }
}

impl SocketPath {
    pub fn new(value: String) -> (path: Self)
        ensures
            path@ == value@,
    {
        SocketPath(value)
    }

    pub fn as_path(&self) -> (path: &str)
        ensures
            path@ == self@,
    {
        self.0.as_str()
    }
}

impl StorePath {
    pub fn new(value: String) -> (path: Self)
        ensures
            path@ == value@,
    {
        StorePath(value)
    }

    pub fn as_path(&self) -> (path: &str)
        ensures
            path@ == self@,
    {
        self.0.as_str()
    }
}

impl BootstrapPolicyPath {
    pub fn new(value: String) -> (path: Self)
        ensures
            path@ == value@,
    {
        BootstrapPolicyPath(value)
    }

    pub fn as_path(&self) -> (path: &str)
        ensures
            path@ == self@,
    {
        self.0.as_str()
    }
}

/// The permission bits the sockets are created with.
#[derive(Debug, Clone, Copy, PartialEq, Eq, Structural)]
pub struct SocketMode(u32);

impl SocketMode {
    pub closed spec fn bits(self) -> u32 {
        self.0
    }

    pub fn from_octal(value: u32) -> (mode: Self)
        ensures
            mode.bits() == value,
    {
        SocketMode(value)
    }

    pub fn as_octal(self) -> (value: u32)
        ensures
            value == self.bits(),
    {
        self.0
    }
}

/// The length a frame's four-byte big-endian prefix announces.
pub open spec fn announced_length(prefix: [u8; 4]) -> int {
    prefix[0] * 16777216 + prefix[1] * 65536 + prefix[2] * 256 + prefix[3]
}

/// Reads the announced length of a frame and checks it against `limit`.
fn checked_frame_length(prefix: [u8; 4], limit: usize) -> (length: Result<usize, Error>)
    ensures
        match length {
            Ok(found) => found == announced_length(prefix) && found <= limit,
            Err(error) => announced_length(prefix) > limit && error == Error::FrameTooLarge {
                found: announced_length(prefix) as usize,
                limit,
            },
        },
{
    let high: usize = prefix[0] as usize;
    let upper: usize = prefix[1] as usize;
    let lower: usize = prefix[2] as usize;
    let low: usize = prefix[3] as usize;
    assert(high * 16777216 + upper * 65536 + lower * 256 + low <= 4294967295) by (nonlinear_arith)
        requires
            high <= 255,
            upper <= 255,
            lower <= 255,
            low <= 255,
    ;
    let found: usize = high * 16777216 + upper * 65536 + lower * 256 + low;
    if found > limit {
        Err(Error::FrameTooLarge { found, limit })
    } else {
        Ok(found)
    }
}

/// The codec of the ordinary socket's length-prefixed frames.
#[derive(Debug, Clone, Copy, PartialEq, Eq, Structural)]
pub struct FrameCodec {
    maximum_frame_bytes: usize,
}

/// The codec of the owner socket's length-prefixed frames.
#[derive(Debug, Clone, Copy, PartialEq, Eq, Structural)]
pub struct OwnerFrameCodec {
    maximum_frame_bytes: usize,
}

/// The codec of the upgrade socket's length-prefixed frames.
#[derive(Debug, Clone, Copy, PartialEq, Eq, Structural)]
pub struct UpgradeFrameCodec {
    maximum_frame_bytes: usize,
}

impl FrameCodec {
    pub closed spec fn limit(self) -> usize {
        self.maximum_frame_bytes
    }

    pub fn new(maximum_frame_bytes: usize) -> (codec: Self)
        ensures
            codec.limit() == maximum_frame_bytes,
    {
        FrameCodec { maximum_frame_bytes }
    }

    pub fn maximum_frame_bytes(&self) -> (limit: usize)
        ensures
            limit == self.limit(),
    {
        self.maximum_frame_bytes
    }

    /// The body length a frame prefix announces, refused when it exceeds
    /// the codec's limit.
    pub fn frame_length(&self, prefix: [u8; 4]) -> (length: Result<usize, Error>)
        ensures
            match length {
                Ok(found) => found == announced_length(prefix) && found <= self.limit(),
                Err(error) => announced_length(prefix) > self.limit() && error
                    == Error::FrameTooLarge {
                    found: announced_length(prefix) as usize,
                    limit: self.limit(),
                },
            },
    {
        checked_frame_length(prefix, self.maximum_frame_bytes)
    }
}

impl Default for FrameCodec {
    fn default() -> (codec: Self)
        ensures
            codec.limit() == DEFAULT_MAXIMUM_FRAME_BYTES,
    {
        FrameCodec::new(DEFAULT_MAXIMUM_FRAME_BYTES)
    }
}

impl OwnerFrameCodec {
    pub closed spec fn limit(self) -> usize {
        self.maximum_frame_bytes
    }

    pub fn new(maximum_frame_bytes: usize) -> (codec: Self)
        ensures
            codec.limit() == maximum_frame_bytes,
    {
        OwnerFrameCodec { maximum_frame_bytes }
    }

    pub fn maximum_frame_bytes(&self) -> (limit: usize)
        ensures
            limit == self.limit(),
    {
        self.maximum_frame_bytes
    }

    /// The body length a frame prefix announces, refused when it exceeds
    /// the codec's limit.
    pub fn frame_length(&self, prefix: [u8; 4]) -> (length: Result<usize, Error>)
        ensures
            match length {
                Ok(found) => found == announced_length(prefix) && found <= self.limit(),
                Err(error) => announced_length(prefix) > self.limit() && error
                    == Error::FrameTooLarge {
                    found: announced_length(prefix) as usize,
                    limit: self.limit(),
                },
            },
    {
        checked_frame_length(prefix, self.maximum_frame_bytes)
    }
}

impl Default for OwnerFrameCodec {
    fn default() -> (codec: Self)
        ensures
            codec.limit() == DEFAULT_MAXIMUM_FRAME_BYTES,
    {
        OwnerFrameCodec::new(DEFAULT_MAXIMUM_FRAME_BYTES)
    }
}

impl UpgradeFrameCodec {
    pub closed spec fn limit(self) -> usize {
        self.maximum_frame_bytes
    }

    pub fn new(maximum_frame_bytes: usize) -> (codec: Self)
        ensures
            codec.limit() == maximum_frame_bytes,
    {
        UpgradeFrameCodec { maximum_frame_bytes }
    }

    pub fn maximum_frame_bytes(&self) -> (limit: usize)
        ensures
            limit == self.limit(),
    {
        self.maximum_frame_bytes
    }

    /// The body length a frame prefix announces, refused when it exceeds
    /// the codec's limit.
    pub fn frame_length(&self, prefix: [u8; 4]) -> (length: Result<usize, Error>)
        ensures
            match length {
                Ok(found) => found == announced_length(prefix) && found <= self.limit(),
                Err(error) => announced_length(prefix) > self.limit() && error
                    == Error::FrameTooLarge {
                    found: announced_length(prefix) as usize,
                    limit: self.limit(),
                },
            },
    {
        checked_frame_length(prefix, self.maximum_frame_bytes)
    }
}

impl Default for UpgradeFrameCodec {
    fn default() -> (codec: Self)
        ensures
            codec.limit() == DEFAULT_MAXIMUM_FRAME_BYTES,
    {
        UpgradeFrameCodec::new(DEFAULT_MAXIMUM_FRAME_BYTES)
    }
}

/// The daemon's configuration: its three sockets, its store, the mode the
/// sockets are created with, and where the bootstrap policy comes from.
#[derive(Debug, Clone, PartialEq, Eq)]
pub struct DaemonConfiguration {
    pub ordinary_socket_path: SocketPath,
    pub owner_socket_path: SocketPath,
    pub upgrade_socket_path: SocketPath,
    pub store_path: StorePath,
    pub socket_mode: SocketMode,
    pub bootstrap_policy_path: Option<BootstrapPolicyPath>,
}

impl DaemonConfiguration {
    /// A configuration that uses the built-in bootstrap policy.
    pub fn new(
        ordinary_socket_path: SocketPath,
        owner_socket_path: SocketPath,
        upgrade_socket_path: SocketPath,
        store_path: StorePath,
        socket_mode: SocketMode,
    ) -> (configuration: Self)
        ensures
            configuration == (DaemonConfiguration {
                ordinary_socket_path,
                owner_socket_path,
                upgrade_socket_path,
                store_path,
                socket_mode,
                bootstrap_policy_path: None,
            }),
    {
        DaemonConfiguration {
            ordinary_socket_path,
            owner_socket_path,
            upgrade_socket_path,
            store_path,
            socket_mode,
            bootstrap_policy_path: None,
        }
    }

    /// The same configuration reading its bootstrap policy from a file.
    pub fn with_bootstrap_policy_path(self, bootstrap_policy_path: BootstrapPolicyPath) -> (configuration: Self)
        ensures
            configuration == (DaemonConfiguration {
                bootstrap_policy_path: Some(bootstrap_policy_path),
                ..self
            }),
    {
        let mut configuration = self;
        configuration.bootstrap_policy_path = Some(bootstrap_policy_path);
        configuration
    }

    /// Where the record store lives.
    pub fn store_location(&self) -> (location: StoreLocation)
        ensures
            location@ == self.store_path@,
    {
        StoreLocation::new(self.store_path.0.clone())
    }

    /// Where the bootstrap policy comes from: the configured file, or the
    /// built-in policy when none is configured.
    pub fn bootstrap_policy_source(&self) -> (source: BootstrapPolicySource)
        ensures
            source@ == match self.bootstrap_policy_path {
                Some(path) => PolicySourceView::Path(path@),
                None => PolicySourceView::Embedded(default_policy_text()),
            },
    {
        match &self.bootstrap_policy_path {
            Some(path) => BootstrapPolicySource::path(path.0.clone()),
            None => BootstrapPolicySource::default(),
        }
    }
}

/// The daemon before its sockets are bound.
pub struct DaemonRuntime {
    configuration: DaemonConfiguration,
}

impl DaemonRuntime {
    pub closed spec fn spec_configuration(&self) -> DaemonConfiguration {
        self.configuration
    }

    pub fn from_configuration(configuration: DaemonConfiguration) -> (runtime: Self)
        ensures
            runtime.spec_configuration() == configuration,
    {
        DaemonRuntime { configuration }
    }

    pub fn configuration(&self) -> (configuration: &DaemonConfiguration)
        ensures
            *configuration == self.spec_configuration(),
    {
        &self.configuration
    }
}

/// A client of the ordinary socket.
#[derive(Debug, Clone, PartialEq, Eq)]
pub struct SignalClient {
    socket: SocketPath,
    codec: FrameCodec,
}

/// A client of the owner socket.
#[derive(Debug, Clone, PartialEq, Eq)]
pub struct OwnerSignalClient {
    socket: SocketPath,
    codec: OwnerFrameCodec,
}

/// A client of the upgrade socket.
#[derive(Debug, Clone, PartialEq, Eq)]
pub struct UpgradeSignalClient {
    socket: SocketPath,
    codec: UpgradeFrameCodec,
}

impl SignalClient {
    pub closed spec fn spec_socket(&self) -> Seq<char> {
        self.socket@
    }

    pub closed spec fn spec_codec(&self) -> FrameCodec {
        self.codec
    }

    /// A client of `socket` with the default frame limit.
    pub fn new(socket: SocketPath) -> (client: Self)
        ensures
            client.spec_socket() == socket@,
            client.spec_codec().limit() == DEFAULT_MAXIMUM_FRAME_BYTES,
    {
        SignalClient { socket, codec: FrameCodec::default() }
    }

    pub fn socket(&self) -> (socket: &SocketPath)
        ensures
            socket@ == self.spec_socket(),
    {
        &self.socket
    }

    pub fn codec(&self) -> (codec: FrameCodec)
        ensures
            codec == self.spec_codec(),
    {
        self.codec
    }
}

impl OwnerSignalClient {
    pub closed spec fn spec_socket(&self) -> Seq<char> {
        self.socket@
    }

    pub closed spec fn spec_codec(&self) -> OwnerFrameCodec {
        self.codec
    }

    /// A client of `socket` with the default frame limit.
    pub fn new(socket: SocketPath) -> (client: Self)
        ensures
            client.spec_socket() == socket@,
            client.spec_codec().limit() == DEFAULT_MAXIMUM_FRAME_BYTES,
    {
        OwnerSignalClient { socket, codec: OwnerFrameCodec::default() }
    }

    pub fn socket(&self) -> (socket: &SocketPath)
        ensures
            socket@ == self.spec_socket(),
    {
        &self.socket
    }

    pub fn codec(&self) -> (codec: OwnerFrameCodec)
        ensures
            codec == self.spec_codec(),
    {
        self.codec
    }
}

impl UpgradeSignalClient {
    pub closed spec fn spec_socket(&self) -> Seq<char> {
        self.socket@
    }

    pub closed spec fn spec_codec(&self) -> UpgradeFrameCodec {
        self.codec
    }

    /// A client of `socket` with the default frame limit.
    pub fn new(socket: SocketPath) -> (client: Self)
        ensures
            client.spec_socket() == socket@,
            client.spec_codec().limit() == DEFAULT_MAXIMUM_FRAME_BYTES,
    {
        UpgradeSignalClient { socket, codec: UpgradeFrameCodec::default() }
    }

    pub fn socket(&self) -> (socket: &SocketPath)
        ensures
            socket@ == self.spec_socket(),
    {
        &self.socket
    }

    pub fn codec(&self) -> (codec: UpgradeFrameCodec)
        ensures
            codec == self.spec_codec(),
    {
        self.codec
    }
}

/// A codec is its limit: two codecs made with the same limit are the same
/// codec, on each of the three sockets.
pub proof fn law_codecs_with_one_limit_are_equal(
    ordinary: (FrameCodec, FrameCodec),
    owner: (OwnerFrameCodec, OwnerFrameCodec),
    upgrade: (UpgradeFrameCodec, UpgradeFrameCodec),
)
    ensures
        ordinary.0.limit() == ordinary.1.limit() ==> ordinary.0 == ordinary.1,
        owner.0.limit() == owner.1.limit() ==> owner.0 == owner.1,
        upgrade.0.limit() == upgrade.1.limit() ==> upgrade.0 == upgrade.1,
{
}

/// The ordinary and owner sockets, and whether they still accept requests.
/// A finalized handover closes them for good.
#[derive(Debug, Clone, PartialEq, Eq)]
pub struct PublicSockets {
    ordinary_socket: SocketPath,
    owner_socket: SocketPath,
    accepting: bool,
}

/// Whether answering `operation` with `reply` finalizes a handover.
pub open spec fn finalizes_handover(operation: UpgradeOperation, reply: UpgradeReply) -> bool {
    &&& operation is HandoverCompleted
    &&& reply is HandoverFinalized
}

impl PublicSockets {
    pub closed spec fn spec_accepting(&self) -> bool {
        self.accepting
    }

    pub closed spec fn spec_sockets(&self) -> (Seq<char>, Seq<char>) {
        (self.ordinary_socket@, self.owner_socket@)
    }

    /// Opened sockets accept requests.
    pub fn open(ordinary_socket: SocketPath, owner_socket: SocketPath) -> (sockets: Self)
        ensures
            sockets.spec_accepting(),
            sockets.spec_sockets() == (ordinary_socket@, owner_socket@),
    {
        PublicSockets { ordinary_socket, owner_socket, accepting: true }
    }

    pub fn is_accepting(&self) -> (accepting: bool)
        ensures
            accepting == self.spec_accepting(),
    {
        self.accepting
    }

    /// Stops accepting; the socket files are removed at the edge.
    pub fn close(&mut self)
        ensures
            !final(self).spec_accepting(),
            final(self).spec_sockets() == old(self).spec_sockets(),
    {
        self.accepting = false;
    }

    /// Takes note of an answered upgrade request: a completed handover that
    /// the daemon finalized closes the public sockets; anything else leaves
    /// them as they were.
    pub fn after_upgrade_reply(&mut self, operation: &UpgradeOperation, reply: &UpgradeReply)
        ensures
            final(self).spec_sockets() == old(self).spec_sockets(),
            final(self).spec_accepting() == (old(self).spec_accepting() && !finalizes_handover(
                *operation,
                *reply,
            )),
    {
        let completed = match operation {
            UpgradeOperation::HandoverCompleted(_) => true,
            _ => false,
        };
        let finalized = match reply {
            UpgradeReply::HandoverFinalized { .. } => true,
            _ => false,
        };
        if completed && finalized {
            self.close();
        }
    }
}

} // verus!
