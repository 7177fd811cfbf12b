use vstd::prelude::*;

use crate::error::Error;

verus! {

/// Holds when `s` starts with the three characters `c0 c1 c2`.
pub open spec fn spec_has_prefix3(s: Seq<char>, c0: char, c1: char, c2: char) -> bool {
    s.len() >= 3 && s[0] == c0 && s[1] == c1 && s[2] == c2
}

/// A data-connection identifier; valid ones start with `dc-`.
#[derive(Debug, Clone, PartialEq, Eq)]
pub struct DataConnectionId {
    pub id: String,
}

impl View for DataConnectionId {
    type V = Seq<char>;

    open spec fn view(&self) -> Seq<char> {
        self.id@
    }
}

impl DataConnectionId {
    pub open spec fn spec_is_valid(s: Seq<char>) -> bool {
        spec_has_prefix3(s, 'd', 'c', '-')
    }

    /// Accepts exactly the strings that carry the `dc-` prefix.
    pub fn try_create(id: &str) -> (r: Result<DataConnectionId, Error>)
        ensures
            Self::spec_is_valid(id@) ==> (r matches Ok(c) && c@ == id@),
            !Self::spec_is_valid(id@) ==> (r matches Err(e) && e is Local),
    {
        if id.unicode_len() >= 3 && id.get_char(0) == 'd' && id.get_char(1) == 'c'
            && id.get_char(2) == '-' {
            Ok(DataConnectionId { id: id.to_owned() })
        } else {
            Err(Error::create_local_error("data connection id must start with dc-"))
        }
    }

    pub fn as_str(&self) -> (r: &str)
        ensures
            r@ == self@,
    {
        self.id.as_str()
    }

    /// A second owned value equal to this one.
    pub fn duplicate(&self) -> (r: DataConnectionId)
        ensures
            r == *self,
    {
        DataConnectionId { id: self.id.clone() }
    }
}

/// A data-port identifier; valid ones start with `da-`.
#[derive(Debug, Clone, PartialEq, Eq)]
pub struct DataId {
    pub id: String,
}

impl View for DataId {
    type V = Seq<char>;

    open spec fn view(&self) -> Seq<char> {
        self.id@
    }
}

impl DataId {
    pub open spec fn spec_is_valid(s: Seq<char>) -> bool {
        spec_has_prefix3(s, 'd', 'a', '-')
    }

    /// Accepts exactly the strings that carry the `da-` prefix.
    pub fn try_create(id: &str) -> (r: Result<DataId, Error>)
        ensures
            Self::spec_is_valid(id@) ==> (r matches Ok(c) && c@ == id@),
            !Self::spec_is_valid(id@) ==> (r matches Err(e) && e is Local),
    {
        if id.unicode_len() >= 3 && id.get_char(0) == 'd' && id.get_char(1) == 'a'
            && id.get_char(2) == '-' {
            Ok(DataId { id: id.to_owned() })
        } else {
            Err(Error::create_local_error("data id must start with da-"))
        }
    }

    pub fn as_str(&self) -> (r: &str)
        ensures
            r@ == self@,
    {
        self.id.as_str()
    }

    pub fn duplicate(&self) -> (r: DataId)
        ensures
            r == *self,
    {
        DataId { id: self.id.clone() }
    }
}

/// A media-connection identifier.
#[derive(Debug, Clone, PartialEq, Eq)]
pub struct MediaConnectionId {
    pub id: String,
}

/// A media-content identifier.
#[derive(Debug, Clone, PartialEq, Eq)]
pub struct MediaId {
    pub id: String,
}

/// An RTCP-socket identifier.
#[derive(Debug, Clone, PartialEq, Eq)]
pub struct RtcpId {
    pub id: String,
}

/// The identifier type of a socket that the backend does not need to
/// name: the address and port alone matter.
#[derive(Debug, Clone, PartialEq, Eq)]
pub struct PhantomId {}

/// An identifier bound to an IP address and a port. The identifier may
/// be absent (the unassigned form, used for fire-and-forget targets).
#[derive(Debug, Clone, PartialEq, Eq)]
pub struct SocketInfo<T> {
    pub id: Option<T>,
    pub ip: String,
    pub port: u16,
}

impl<T> SocketInfo<T> {
    pub fn new(id: Option<T>, ip: String, port: u16) -> (r: SocketInfo<T>)
        ensures
            r == (SocketInfo { id, ip, port }),
    {
        SocketInfo { id, ip, port }
    }

    pub fn port(&self) -> (r: u16)
        ensures
            r == self.port,
    {
        self.port
    }
}

#[derive(Debug, Clone, PartialEq, Eq)]
pub struct DataIdWrapper {
    pub data_id: DataId,
}

#[derive(Debug, Clone, PartialEq, Eq)]
pub struct DataConnectionIdWrapper {
    pub data_connection_id: DataConnectionId,
}

#[derive(Debug, Clone, PartialEq, Eq)]
pub struct MediaIdWrapper {
    pub media_id: MediaId,
}

#[derive(Debug, Clone, PartialEq, Eq)]
pub struct RtcpIdWrapper {
    pub rtcp_id: RtcpId,
}

#[derive(Debug, Clone, PartialEq, Eq)]
pub struct MediaConnectionIdWrapper {
    pub media_connection_id: MediaConnectionId,
}

/// The identity of a peer at the backend: its name and its session token.
#[derive(Debug, Clone, PartialEq, Eq)]
pub struct PeerInfo {
    pub peer_id: String,
    pub token: String,
}

impl PeerInfo {
    pub fn duplicate(&self) -> (r: PeerInfo)
        ensures
            r == *self,
    {
        PeerInfo { peer_id: self.peer_id.clone(), token: self.token.clone() }
    }
}

#[derive(Debug, Clone, PartialEq, Eq)]
pub struct PeerStatusMessage {
    pub peer_id: String,
    pub disconnected: bool,
}

/// A backend notice that a remote peer opened a data connection towards
/// this peer.
#[derive(Debug, Clone, PartialEq, Eq)]
pub struct PeerConnectionEvent {
    pub params: PeerInfo,
    pub data_params: DataConnectionIdWrapper,
}

#[derive(Debug, Clone, PartialEq, Eq)]
pub struct DataConnectionErrorEvent {
    pub data_connection_id: DataConnectionId,
    pub error_message: String,
}

#[derive(Debug, Clone, PartialEq, Eq)]
pub struct DataConnectionStatus {
    pub remote_id: String,
    pub is_open: bool,
    pub reliable: bool,
    pub metadata: String,
}

#[derive(Debug, Clone, PartialEq, Eq)]
pub struct MediaConnectionStatus {
    pub remote_id: String,
    pub is_open: bool,
    pub metadata: String,
}

#[derive(Debug, Clone, PartialEq, Eq)]
pub struct AnswerResult {
    pub media_connection_id: MediaConnectionId,
}

/// Lifecycle events of a peer, pushed by the backend.
#[derive(Debug, Clone, PartialEq, Eq)]
#[allow(non_camel_case_types)]
pub enum PeerEventEnum {
    OPEN(PeerInfo),
    CLOSE(PeerInfo),
    CONNECTION(PeerConnectionEvent),
    CALL(MediaConnectionIdWrapper),
    TIMEOUT,
}

/// Lifecycle events of a data connection, pushed by the backend.
#[derive(Debug, Clone, PartialEq, Eq)]
#[allow(non_camel_case_types)]
pub enum DataConnectionEventEnum {
    OPEN(DataConnectionIdWrapper),
    CLOSE(DataConnectionIdWrapper),
    ERROR(DataConnectionErrorEvent),
}

/// Lifecycle events of a media connection, pushed by the backend.
#[derive(Debug, Clone, PartialEq, Eq)]
#[allow(non_camel_case_types)]
pub enum MediaConnectionEventEnum {
    READY(MediaConnectionIdWrapper),
    STREAM(MediaConnectionIdWrapper),
    CLOSE(MediaConnectionIdWrapper),
}

/// Peer-domain responses of the backend.
#[derive(Debug, Clone, PartialEq, Eq)]
pub enum PeerResponse {
    Create(PeerInfo),
    Status(PeerStatusMessage),
    Delete(PeerInfo),
    Event(PeerEventEnum),
}

/// Media-domain responses of the backend.
#[derive(Debug, Clone, PartialEq, Eq)]
pub enum MediaResponse {
    ContentCreate(SocketInfo<MediaId>),
    ContentDelete(MediaIdWrapper),
    RtcpCreate(SocketInfo<RtcpId>),
    RtcpDelete(RtcpIdWrapper),
    Call(MediaConnectionIdWrapper),
    Answer(AnswerResult),
    Event(MediaConnectionEventEnum),
    Status(MediaConnectionStatus),
}

/// Data-domain responses of the backend.
#[derive(Debug, Clone, PartialEq, Eq)]
pub enum DataResponse {
    Create(SocketInfo<DataId>),
    Connect(DataConnectionIdWrapper),
    Delete(DataIdWrapper),
    Disconnect(DataConnectionIdWrapper),
    Redirect(DataConnectionIdWrapper),
    Event(DataConnectionEventEnum),
    Status(DataConnectionStatus),
}

/// A typed backend response, one domain per arm.
#[derive(Debug, Clone, PartialEq, Eq)]
pub enum Response {
    Peer(PeerResponse),
    Media(MediaResponse),
    Data(DataResponse),
}

/// What the backend repository hands back: a typed success or an opaque
/// error string.
#[derive(Debug, Clone, PartialEq, Eq)]
pub enum ResponseResult {
    Success(Response),
    Error(String),
}

/// The parameter bundle of a backend redirect registration: the
/// connection to redirect, the feed source, and the forward target.
#[derive(Debug, Clone, PartialEq, Eq)]
pub struct RedirectParams {
    pub data_connection_id: DataConnectionId,
    pub feed_params: Option<DataIdWrapper>,
    pub redirect_params: Option<SocketInfo<PhantomId>>,
}

/// Data-domain requests this layer issues to the backend.
#[derive(Debug, Clone, PartialEq, Eq)]
pub enum DataRequest {
    Create,
    Redirect { params: RedirectParams },
    Status { params: DataConnectionIdWrapper },
}

/// A backend request; the excerpted control flows issue data-domain
/// requests only.
#[derive(Debug, Clone, PartialEq, Eq)]
pub enum Request {
    Data(DataRequest),
}

} // verus!
