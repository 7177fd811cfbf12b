use vstd::prelude::*;

use crate::dto::DataRequestDto;
use crate::dto::DataResponseDto;
use crate::dto::MediaRequestDto;
use crate::dto::MediaResponseDto;
use crate::dto::PeerConnectionEventDto;
use crate::dto::PeerEventEnumDto;
use crate::dto::PeerRequestDto;
use crate::dto::PeerResponseDto;
use crate::dto::RedirectDtoParams;
use crate::dto::RequestDto;
use crate::dto::ResponseDto;
use crate::dto::ResponseDtoResult;
use crate::entity::AnswerResult;
use crate::entity::DataConnectionErrorEvent;
use crate::entity::DataConnectionEventEnum;
use crate::entity::MediaConnectionEventEnum;
use crate::entity::DataConnectionId;
use crate::entity::DataConnectionIdWrapper;
use crate::entity::DataConnectionStatus;
use crate::entity::DataId;
use crate::entity::DataIdWrapper;
use crate::entity::MediaConnectionId;
use crate::entity::MediaConnectionIdWrapper;
use crate::entity::MediaConnectionStatus;
use crate::entity::MediaId;
use crate::entity::MediaIdWrapper;
use crate::entity::PeerInfo;
use crate::entity::PeerStatusMessage;
use crate::entity::RtcpId;
use crate::entity::RtcpIdWrapper;
use crate::entity::SocketInfo;
use crate::error::DecodeErrorKind;
use crate::error::Error;
use crate::json::find_field;
use crate::json::spec_field;
use crate::json::JsonValue;

verus! {

// --- payload documents: decoder specifications, decoders, encoders ---
//
// Members are read by name through `spec_field`/`find_field`: any
// order, unknown members ignored, the first occurrence of a name
// counts. Encoders emit one canonical order; decoders do not rely on
// it. Identifiers inside documents are carried as opaque strings, as
// the boundary receives them; the prefix rule holds where an
// identifier enters through `try_create`, not here.

broadcast use crate::json::lemma_field_push;

/// True when `s` reads exactly `t`.
fn text_is(s: &String, t: &str) -> (r: bool)
    ensures
        r == (s@ == t@),
{
    let k = String::from_str(t);
    *s == k
}

/// The document form of a peer identity.
pub open spec fn spec_dec_peer_info(v: JsonValue) -> Result<PeerInfo, DecodeErrorKind> {
    match v {
        JsonValue::Object(fs) => if spec_field(fs@, "peer_id"@) is None || spec_field(
            fs@,
            "token"@,
        ) is None {
            Err(DecodeErrorKind::MissingField)
        } else {
            match (spec_field(fs@, "peer_id"@)->Some_0, spec_field(fs@, "token"@)->Some_0) {
                (JsonValue::Text(p), JsonValue::Text(t)) => Ok(
                    PeerInfo { peer_id: p, token: t },
                ),
                _ => Err(DecodeErrorKind::MalformedJson),
            }
        },
        _ => Err(DecodeErrorKind::MalformedJson),
    }
}

fn decode_peer_info(v: &JsonValue) -> (r: Result<PeerInfo, DecodeErrorKind>)
    ensures
        r == spec_dec_peer_info(*v),
{
    match v {
        JsonValue::Object(fs) => {
            match (find_field(fs, "peer_id"), find_field(fs, "token")) {
                (Some(pv), Some(tv)) => match (pv, tv) {
                    (JsonValue::Text(p), JsonValue::Text(t)) => Ok(
                        PeerInfo { peer_id: p.clone(), token: t.clone() },
                    ),
                    _ => Err(DecodeErrorKind::MalformedJson),
                },
                _ => Err(DecodeErrorKind::MissingField),
            }
        },
        _ => Err(DecodeErrorKind::MalformedJson),
    }
}

fn encode_peer_info_fields(x: &PeerInfo) -> (fs: Vec<(String, JsonValue)>)
    ensures
        spec_dec_peer_info(JsonValue::Object(fs)) == Ok::<PeerInfo, DecodeErrorKind>(*x),
        spec_field(fs@, "type"@) is None,
        spec_field(fs@, "command"@) is None,
{
    proof {
        reveal_strlit("peer_id");
        reveal_strlit("token");
        reveal_strlit("type");
        reveal_strlit("command");
        assert("peer_id"@.len() == 7 && "peer_id"@[0] == 'p');
        assert("token"@.len() == 5);
        assert("type"@.len() == 4);
        assert("command"@.len() == 7 && "command"@[0] == 'c');
    }
    let mut fs: Vec<(String, JsonValue)> = Vec::new();
    fs.push((String::from_str("peer_id"), JsonValue::Text(x.peer_id.clone())));
    fs.push((String::from_str("token"), JsonValue::Text(x.token.clone())));
    fs
}

fn encode_peer_info(x: &PeerInfo) -> (v: JsonValue)
    ensures
        spec_dec_peer_info(v) == Ok::<PeerInfo, DecodeErrorKind>(*x),
{
    JsonValue::Object(encode_peer_info_fields(x))
}

/// The document form of a peer status report.
pub open spec fn spec_dec_peer_status(v: JsonValue) -> Result<PeerStatusMessage, DecodeErrorKind> {
    match v {
        JsonValue::Object(fs) => if spec_field(fs@, "peer_id"@) is None || spec_field(
            fs@,
            "disconnected"@,
        ) is None {
            Err(DecodeErrorKind::MissingField)
        } else {
            match (
                spec_field(fs@, "peer_id"@)->Some_0,
                spec_field(fs@, "disconnected"@)->Some_0,
            ) {
                (JsonValue::Text(p), JsonValue::Bool(d)) => Ok(
                    PeerStatusMessage { peer_id: p, disconnected: d },
                ),
                _ => Err(DecodeErrorKind::MalformedJson),
            }
        },
        _ => Err(DecodeErrorKind::MalformedJson),
    }
}

fn decode_peer_status(v: &JsonValue) -> (r: Result<PeerStatusMessage, DecodeErrorKind>)
    ensures
        r == spec_dec_peer_status(*v),
{
    match v {
        JsonValue::Object(fs) => {
            match (find_field(fs, "peer_id"), find_field(fs, "disconnected")) {
                (Some(pv), Some(dv)) => match (pv, dv) {
                    (JsonValue::Text(p), JsonValue::Bool(d)) => Ok(
                        PeerStatusMessage { peer_id: p.clone(), disconnected: *d },
                    ),
                    _ => Err(DecodeErrorKind::MalformedJson),
                },
                _ => Err(DecodeErrorKind::MissingField),
            }
        },
        _ => Err(DecodeErrorKind::MalformedJson),
    }
}

fn encode_peer_status_fields(x: &PeerStatusMessage) -> (fs: Vec<(String, JsonValue)>)
    ensures
        spec_dec_peer_status(JsonValue::Object(fs)) == Ok::<PeerStatusMessage, DecodeErrorKind>(
            *x,
        ),
        spec_field(fs@, "type"@) is None,
        spec_field(fs@, "command"@) is None,
{
    proof {
        reveal_strlit("peer_id");
        reveal_strlit("disconnected");
        reveal_strlit("type");
        reveal_strlit("command");
        assert("peer_id"@.len() == 7 && "peer_id"@[0] == 'p');
        assert("disconnected"@.len() == 12);
        assert("type"@.len() == 4);
        assert("command"@.len() == 7 && "command"@[0] == 'c');
    }
    let mut fs: Vec<(String, JsonValue)> = Vec::new();
    fs.push((String::from_str("peer_id"), JsonValue::Text(x.peer_id.clone())));
    fs.push((String::from_str("disconnected"), JsonValue::Bool(x.disconnected)));
    fs
}

/// The document form of an object carrying one named text member.
pub open spec fn spec_dec_one_text(v: JsonValue, key: Seq<char>) -> Result<
    String,
    DecodeErrorKind,
> {
    match v {
        JsonValue::Object(fs) => if spec_field(fs@, key) is None {
            Err(DecodeErrorKind::MissingField)
        } else {
            match spec_field(fs@, key)->Some_0 {
                JsonValue::Text(s) => Ok(s),
                _ => Err(DecodeErrorKind::MalformedJson),
            }
        },
        _ => Err(DecodeErrorKind::MalformedJson),
    }
}

fn decode_one_text(v: &JsonValue, key: &str) -> (r: Result<String, DecodeErrorKind>)
    ensures
        r == spec_dec_one_text(*v, key@),
{
    match v {
        JsonValue::Object(fs) => {
            match find_field(fs, key) {
                Some(JsonValue::Text(s)) => Ok(s.clone()),
                Some(_) => Err(DecodeErrorKind::MalformedJson),
                None => Err(DecodeErrorKind::MissingField),
            }
        },
        _ => Err(DecodeErrorKind::MalformedJson),
    }
}

fn encode_one_text_fields(key: &str, value: &String) -> (fs: Vec<(String, JsonValue)>)
    requires
        key@ != "type"@,
        key@ != "command"@,
    ensures
        spec_dec_one_text(JsonValue::Object(fs), key@) == Ok::<String, DecodeErrorKind>(*value),
        spec_field(fs@, "type"@) is None,
        spec_field(fs@, "command"@) is None,
{
    let mut fs: Vec<(String, JsonValue)> = Vec::new();
    fs.push((String::from_str(key), JsonValue::Text(value.clone())));
    fs
}

/// The document form of a data-connection id wrapper.
pub open spec fn spec_dec_dc_wrapper(v: JsonValue) -> Result<
    DataConnectionIdWrapper,
    DecodeErrorKind,
> {
    match spec_dec_one_text(v, "data_connection_id"@) {
        Ok(s) => Ok(DataConnectionIdWrapper { data_connection_id: DataConnectionId { id: s } }),
        Err(k) => Err(k),
    }
}

fn decode_dc_wrapper(v: &JsonValue) -> (r: Result<DataConnectionIdWrapper, DecodeErrorKind>)
    ensures
        r == spec_dec_dc_wrapper(*v),
{
    match decode_one_text(v, "data_connection_id") {
        Ok(s) => Ok(DataConnectionIdWrapper { data_connection_id: DataConnectionId { id: s } }),
        Err(k) => Err(k),
    }
}

fn encode_dc_wrapper_fields(x: &DataConnectionIdWrapper) -> (fs: Vec<(String, JsonValue)>)
    ensures
        spec_dec_dc_wrapper(JsonValue::Object(fs)) == Ok::<
            DataConnectionIdWrapper,
            DecodeErrorKind,
        >(*x),
        spec_field(fs@, "type"@) is None,
        spec_field(fs@, "command"@) is None,
{
    proof {
        reveal_strlit("data_connection_id");
        assert("data_connection_id"@.len() == 18);
        reveal_strlit("type");
        reveal_strlit("command");
        assert("type"@.len() == 4 && "type"@[0] == 't');
        assert("command"@.len() == 7 && "command"@[0] == 'c');
    }
    encode_one_text_fields("data_connection_id", &x.data_connection_id.id)
}

fn encode_dc_wrapper(x: &DataConnectionIdWrapper) -> (v: JsonValue)
    ensures
        spec_dec_dc_wrapper(v) == Ok::<DataConnectionIdWrapper, DecodeErrorKind>(*x),
{
    JsonValue::Object(encode_dc_wrapper_fields(x))
}

/// The document form of a data id wrapper.
pub open spec fn spec_dec_data_id_wrapper(v: JsonValue) -> Result<DataIdWrapper, DecodeErrorKind> {
    match spec_dec_one_text(v, "data_id"@) {
        Ok(s) => Ok(DataIdWrapper { data_id: DataId { id: s } }),
        Err(k) => Err(k),
    }
}

fn decode_data_id_wrapper(v: &JsonValue) -> (r: Result<DataIdWrapper, DecodeErrorKind>)
    ensures
        r == spec_dec_data_id_wrapper(*v),
{
    match decode_one_text(v, "data_id") {
        Ok(s) => Ok(DataIdWrapper { data_id: DataId { id: s } }),
        Err(k) => Err(k),
    }
}

fn encode_data_id_wrapper_fields(x: &DataIdWrapper) -> (fs: Vec<(String, JsonValue)>)
    ensures
        spec_dec_data_id_wrapper(JsonValue::Object(fs)) == Ok::<DataIdWrapper, DecodeErrorKind>(
            *x,
        ),
        spec_field(fs@, "type"@) is None,
        spec_field(fs@, "command"@) is None,
{
    proof {
        reveal_strlit("data_id");
        assert("data_id"@.len() == 7 && "data_id"@[0] == 'd');
        reveal_strlit("type");
        reveal_strlit("command");
        assert("type"@.len() == 4 && "type"@[0] == 't');
        assert("command"@.len() == 7 && "command"@[0] == 'c');
    }
    encode_one_text_fields("data_id", &x.data_id.id)
}

fn encode_data_id_wrapper(x: &DataIdWrapper) -> (v: JsonValue)
    ensures
        spec_dec_data_id_wrapper(v) == Ok::<DataIdWrapper, DecodeErrorKind>(*x),
{
    JsonValue::Object(encode_data_id_wrapper_fields(x))
}

/// The document form of a media id wrapper.
pub open spec fn spec_dec_media_id_wrapper(v: JsonValue) -> Result<
    MediaIdWrapper,
    DecodeErrorKind,
> {
    match spec_dec_one_text(v, "media_id"@) {
        Ok(s) => Ok(MediaIdWrapper { media_id: MediaId { id: s } }),
        Err(k) => Err(k),
    }
}

fn decode_media_id_wrapper(v: &JsonValue) -> (r: Result<MediaIdWrapper, DecodeErrorKind>)
    ensures
        r == spec_dec_media_id_wrapper(*v),
{
    match decode_one_text(v, "media_id") {
        Ok(s) => Ok(MediaIdWrapper { media_id: MediaId { id: s } }),
        Err(k) => Err(k),
    }
}

fn encode_media_id_wrapper_fields(x: &MediaIdWrapper) -> (fs: Vec<(String, JsonValue)>)
    ensures
        spec_dec_media_id_wrapper(JsonValue::Object(fs)) == Ok::<MediaIdWrapper, DecodeErrorKind>(
            *x,
        ),
        spec_field(fs@, "type"@) is None,
        spec_field(fs@, "command"@) is None,
{
    proof {
        reveal_strlit("media_id");
        assert("media_id"@.len() == 8);
        reveal_strlit("type");
        reveal_strlit("command");
        assert("type"@.len() == 4 && "type"@[0] == 't');
        assert("command"@.len() == 7 && "command"@[0] == 'c');
    }
    encode_one_text_fields("media_id", &x.media_id.id)
}

/// The document form of an RTCP id wrapper.
pub open spec fn spec_dec_rtcp_id_wrapper(v: JsonValue) -> Result<RtcpIdWrapper, DecodeErrorKind> {
    match spec_dec_one_text(v, "rtcp_id"@) {
        Ok(s) => Ok(RtcpIdWrapper { rtcp_id: RtcpId { id: s } }),
        Err(k) => Err(k),
    }
}

fn decode_rtcp_id_wrapper(v: &JsonValue) -> (r: Result<RtcpIdWrapper, DecodeErrorKind>)
    ensures
        r == spec_dec_rtcp_id_wrapper(*v),
{
    match decode_one_text(v, "rtcp_id") {
        Ok(s) => Ok(RtcpIdWrapper { rtcp_id: RtcpId { id: s } }),
        Err(k) => Err(k),
    }
}

fn encode_rtcp_id_wrapper_fields(x: &RtcpIdWrapper) -> (fs: Vec<(String, JsonValue)>)
    ensures
        spec_dec_rtcp_id_wrapper(JsonValue::Object(fs)) == Ok::<RtcpIdWrapper, DecodeErrorKind>(
            *x,
        ),
        spec_field(fs@, "type"@) is None,
        spec_field(fs@, "command"@) is None,
{
    proof {
        reveal_strlit("rtcp_id");
        assert("rtcp_id"@.len() == 7 && "rtcp_id"@[0] == 'r');
        reveal_strlit("type");
        reveal_strlit("command");
        assert("type"@.len() == 4 && "type"@[0] == 't');
        assert("command"@.len() == 7 && "command"@[0] == 'c');
    }
    encode_one_text_fields("rtcp_id", &x.rtcp_id.id)
}

/// The document form of a media-connection id wrapper.
pub open spec fn spec_dec_mc_wrapper(v: JsonValue) -> Result<
    MediaConnectionIdWrapper,
    DecodeErrorKind,
> {
    match spec_dec_one_text(v, "media_connection_id"@) {
        Ok(s) => Ok(
            MediaConnectionIdWrapper { media_connection_id: MediaConnectionId { id: s } },
        ),
        Err(k) => Err(k),
    }
}

fn decode_mc_wrapper(v: &JsonValue) -> (r: Result<MediaConnectionIdWrapper, DecodeErrorKind>)
    ensures
        r == spec_dec_mc_wrapper(*v),
{
    match decode_one_text(v, "media_connection_id") {
        Ok(s) => Ok(
            MediaConnectionIdWrapper { media_connection_id: MediaConnectionId { id: s } },
        ),
        Err(k) => Err(k),
    }
}

fn encode_mc_wrapper_fields(x: &MediaConnectionIdWrapper) -> (fs: Vec<(String, JsonValue)>)
    ensures
        spec_dec_mc_wrapper(JsonValue::Object(fs)) == Ok::<
            MediaConnectionIdWrapper,
            DecodeErrorKind,
        >(*x),
        spec_field(fs@, "type"@) is None,
        spec_field(fs@, "command"@) is None,
{
    proof {
        reveal_strlit("media_connection_id");
        assert("media_connection_id"@.len() == 19);
        reveal_strlit("type");
        reveal_strlit("command");
        assert("type"@.len() == 4 && "type"@[0] == 't');
        assert("command"@.len() == 7 && "command"@[0] == 'c');
    }
    encode_one_text_fields("media_connection_id", &x.media_connection_id.id)
}

fn encode_mc_wrapper(x: &MediaConnectionIdWrapper) -> (v: JsonValue)
    ensures
        spec_dec_mc_wrapper(v) == Ok::<MediaConnectionIdWrapper, DecodeErrorKind>(*x),
{
    JsonValue::Object(encode_mc_wrapper_fields(x))
}

/// The document form of an answer result.
pub open spec fn spec_dec_answer(v: JsonValue) -> Result<AnswerResult, DecodeErrorKind> {
    match spec_dec_one_text(v, "media_connection_id"@) {
        Ok(s) => Ok(AnswerResult { media_connection_id: MediaConnectionId { id: s } }),
        Err(k) => Err(k),
    }
}

fn decode_answer(v: &JsonValue) -> (r: Result<AnswerResult, DecodeErrorKind>)
    ensures
        r == spec_dec_answer(*v),
{
    match decode_one_text(v, "media_connection_id") {
        Ok(s) => Ok(AnswerResult { media_connection_id: MediaConnectionId { id: s } }),
        Err(k) => Err(k),
    }
}

fn encode_answer_fields(x: &AnswerResult) -> (fs: Vec<(String, JsonValue)>)
    ensures
        spec_dec_answer(JsonValue::Object(fs)) == Ok::<AnswerResult, DecodeErrorKind>(*x),
        spec_field(fs@, "type"@) is None,
        spec_field(fs@, "command"@) is None,
{
    proof {
        reveal_strlit("media_connection_id");
        assert("media_connection_id"@.len() == 19);
        reveal_strlit("type");
        reveal_strlit("command");
        assert("type"@.len() == 4 && "type"@[0] == 't');
        assert("command"@.len() == 7 && "command"@[0] == 'c');
    }
    encode_one_text_fields("media_connection_id", &x.media_connection_id.id)
}

/// The document form of a socket: an optional identifier, an address,
/// and a port that must fit the port range. An unassigned identifier is
/// a null member, not an absent one.
pub open spec fn spec_dec_socket_raw(v: JsonValue) -> Result<
    (Option<String>, String, u16),
    DecodeErrorKind,
> {
    match v {
        JsonValue::Object(fs) => if spec_field(fs@, "id"@) is None || spec_field(fs@, "ip"@)
            is None || spec_field(fs@, "port"@) is None {
            Err(DecodeErrorKind::MissingField)
        } else {
            match (
                spec_field(fs@, "id"@)->Some_0,
                spec_field(fs@, "ip"@)->Some_0,
                spec_field(fs@, "port"@)->Some_0,
            ) {
                (JsonValue::Null, JsonValue::Text(ip), JsonValue::UInt(p)) => if p <= 65535 {
                    Ok((None, ip, p as u16))
                } else {
                    Err(DecodeErrorKind::MalformedJson)
                },
                (JsonValue::Text(id), JsonValue::Text(ip), JsonValue::UInt(p)) => if p
                    <= 65535 {
                    Ok((Some(id), ip, p as u16))
                } else {
                    Err(DecodeErrorKind::MalformedJson)
                },
                _ => Err(DecodeErrorKind::MalformedJson),
            }
        },
        _ => Err(DecodeErrorKind::MalformedJson),
    }
}

fn decode_socket_raw(v: &JsonValue) -> (r: Result<(Option<String>, String, u16), DecodeErrorKind>)
    ensures
        r == spec_dec_socket_raw(*v),
{
    match v {
        JsonValue::Object(fs) => {
            match (find_field(fs, "id"), find_field(fs, "ip"), find_field(fs, "port")) {
                (Some(idv), Some(ipv), Some(pv)) => match (idv, ipv, pv) {
                    (JsonValue::Null, JsonValue::Text(ip), JsonValue::UInt(p)) => {
                        if *p <= 65535 {
                            Ok((None, ip.clone(), *p as u16))
                        } else {
                            Err(DecodeErrorKind::MalformedJson)
                        }
                    },
                    (JsonValue::Text(id), JsonValue::Text(ip), JsonValue::UInt(p)) => {
                        if *p <= 65535 {
                            Ok((Some(id.clone()), ip.clone(), *p as u16))
                        } else {
                            Err(DecodeErrorKind::MalformedJson)
                        }
                    },
                    _ => Err(DecodeErrorKind::MalformedJson),
                },
                _ => Err(DecodeErrorKind::MissingField),
            }
        },
        _ => Err(DecodeErrorKind::MalformedJson),
    }
}

fn encode_socket_raw_fields(id: Option<&String>, ip: &String, port: u16) -> (fs: Vec<(
    String,
    JsonValue,
)>)
    ensures
        (match id {
            Some(s) => spec_dec_socket_raw(JsonValue::Object(fs)) == Ok::<_, DecodeErrorKind>(
                (Some(*s), *ip, port),
            ),
            None => spec_dec_socket_raw(JsonValue::Object(fs)) == Ok::<_, DecodeErrorKind>(
                (None::<String>, *ip, port),
            ),
        }),
        spec_field(fs@, "type"@) is None,
        spec_field(fs@, "command"@) is None,
{
    let idv = match id {
        Some(s) => JsonValue::Text(s.clone()),
        None => JsonValue::Null,
    };
    let mut fs: Vec<(String, JsonValue)> = Vec::new();
    fs.push((String::from_str("id"), idv));
    fs.push((String::from_str("ip"), JsonValue::Text(ip.clone())));
    fs.push((String::from_str("port"), JsonValue::UInt(port as u64)));
    proof {
        reveal_strlit("id");
        reveal_strlit("ip");
        reveal_strlit("port");
        reveal_strlit("type");
        reveal_strlit("command");
        assert("id"@.len() == 2 && "id"@[1] == 'd');
        assert("ip"@.len() == 2 && "ip"@[1] == 'p');
        assert("port"@.len() == 4 && "port"@[0] == 'p');
        assert("type"@.len() == 4 && "type"@[0] == 't');
        assert("command"@.len() == 7 && "command"@[0] == 'c');
    }
    fs
}

/// The document form of a data-port socket.
pub open spec fn spec_dec_socket_data(v: JsonValue) -> Result<SocketInfo<DataId>, DecodeErrorKind> {
    match spec_dec_socket_raw(v) {
        Ok((id, ip, port)) => Ok(
            SocketInfo {
                id: match id {
                    Some(s) => Some(DataId { id: s }),
                    None => None,
                },
                ip,
                port,
            },
        ),
        Err(k) => Err(k),
    }
}

fn decode_socket_data(v: &JsonValue) -> (r: Result<SocketInfo<DataId>, DecodeErrorKind>)
    ensures
        r == spec_dec_socket_data(*v),
{
    match decode_socket_raw(v) {
        Ok((id, ip, port)) => Ok(
            SocketInfo {
                id: match id {
                    Some(s) => Some(DataId { id: s }),
                    None => None,
                },
                ip,
                port,
            },
        ),
        Err(k) => Err(k),
    }
}

fn encode_socket_data_fields(x: &SocketInfo<DataId>) -> (fs: Vec<(String, JsonValue)>)
    ensures
        spec_dec_socket_data(JsonValue::Object(fs)) == Ok::<SocketInfo<DataId>, DecodeErrorKind>(*x),
        spec_field(fs@, "type"@) is None,
        spec_field(fs@, "command"@) is None,
{
    match &x.id {
        Some(d) => encode_socket_raw_fields(Some(&d.id), &x.ip, x.port),
        None => encode_socket_raw_fields(None, &x.ip, x.port),
    }
}

/// The document form of a media-content socket.
pub open spec fn spec_dec_socket_media(v: JsonValue) -> Result<
    SocketInfo<MediaId>,
    DecodeErrorKind,
> {
    match spec_dec_socket_raw(v) {
        Ok((id, ip, port)) => Ok(
            SocketInfo {
                id: match id {
                    Some(s) => Some(MediaId { id: s }),
                    None => None,
                },
                ip,
                port,
            },
        ),
        Err(k) => Err(k),
    }
}

fn decode_socket_media(v: &JsonValue) -> (r: Result<SocketInfo<MediaId>, DecodeErrorKind>)
    ensures
        r == spec_dec_socket_media(*v),
{
    match decode_socket_raw(v) {
        Ok((id, ip, port)) => Ok(
            SocketInfo {
                id: match id {
                    Some(s) => Some(MediaId { id: s }),
                    None => None,
                },
                ip,
                port,
            },
        ),
        Err(k) => Err(k),
    }
}

fn encode_socket_media_fields(x: &SocketInfo<MediaId>) -> (fs: Vec<(String, JsonValue)>)
    ensures
        spec_dec_socket_media(JsonValue::Object(fs)) == Ok::<SocketInfo<MediaId>, DecodeErrorKind>(*x),
        spec_field(fs@, "type"@) is None,
        spec_field(fs@, "command"@) is None,
{
    match &x.id {
        Some(d) => encode_socket_raw_fields(Some(&d.id), &x.ip, x.port),
        None => encode_socket_raw_fields(None, &x.ip, x.port),
    }
}

/// The document form of an RTCP socket.
pub open spec fn spec_dec_socket_rtcp(v: JsonValue) -> Result<SocketInfo<RtcpId>, DecodeErrorKind> {
    match spec_dec_socket_raw(v) {
        Ok((id, ip, port)) => Ok(
            SocketInfo {
                id: match id {
                    Some(s) => Some(RtcpId { id: s }),
                    None => None,
                },
                ip,
                port,
            },
        ),
        Err(k) => Err(k),
    }
}

fn decode_socket_rtcp(v: &JsonValue) -> (r: Result<SocketInfo<RtcpId>, DecodeErrorKind>)
    ensures
        r == spec_dec_socket_rtcp(*v),
{
    match decode_socket_raw(v) {
        Ok((id, ip, port)) => Ok(
            SocketInfo {
                id: match id {
                    Some(s) => Some(RtcpId { id: s }),
                    None => None,
                },
                ip,
                port,
            },
        ),
        Err(k) => Err(k),
    }
}

fn encode_socket_rtcp_fields(x: &SocketInfo<RtcpId>) -> (fs: Vec<(String, JsonValue)>)
    ensures
        spec_dec_socket_rtcp(JsonValue::Object(fs)) == Ok::<SocketInfo<RtcpId>, DecodeErrorKind>(*x),
        spec_field(fs@, "type"@) is None,
        spec_field(fs@, "command"@) is None,
{
    match &x.id {
        Some(d) => encode_socket_raw_fields(Some(&d.id), &x.ip, x.port),
        None => encode_socket_raw_fields(None, &x.ip, x.port),
    }
}

/// The document form of a data-connection status.
pub open spec fn spec_dec_data_status(v: JsonValue) -> Result<
    DataConnectionStatus,
    DecodeErrorKind,
> {
    match v {
        JsonValue::Object(fs) => if spec_field(fs@, "remote_id"@) is None || spec_field(
            fs@,
            "open"@,
        ) is None || spec_field(fs@, "reliable"@) is None || spec_field(fs@, "metadata"@)
            is None {
            Err(DecodeErrorKind::MissingField)
        } else {
            match (
                spec_field(fs@, "remote_id"@)->Some_0,
                spec_field(fs@, "open"@)->Some_0,
                spec_field(fs@, "reliable"@)->Some_0,
                spec_field(fs@, "metadata"@)->Some_0,
            ) {
                (
                    JsonValue::Text(r),
                    JsonValue::Bool(o),
                    JsonValue::Bool(rel),
                    JsonValue::Text(m),
                ) => Ok(
                    DataConnectionStatus {
                        remote_id: r,
                        is_open: o,
                        reliable: rel,
                        metadata: m,
                    },
                ),
                _ => Err(DecodeErrorKind::MalformedJson),
            }
        },
        _ => Err(DecodeErrorKind::MalformedJson),
    }
}

fn decode_data_status(v: &JsonValue) -> (r: Result<DataConnectionStatus, DecodeErrorKind>)
    ensures
        r == spec_dec_data_status(*v),
{
    match v {
        JsonValue::Object(fs) => {
            match (
                find_field(fs, "remote_id"),
                find_field(fs, "open"),
                find_field(fs, "reliable"),
                find_field(fs, "metadata"),
            ) {
                (Some(rv), Some(ov), Some(relv), Some(mv)) => match (rv, ov, relv, mv) {
                    (
                        JsonValue::Text(rid),
                        JsonValue::Bool(o),
                        JsonValue::Bool(rel),
                        JsonValue::Text(m),
                    ) => Ok(
                        DataConnectionStatus {
                            remote_id: rid.clone(),
                            is_open: *o,
                            reliable: *rel,
                            metadata: m.clone(),
                        },
                    ),
                    _ => Err(DecodeErrorKind::MalformedJson),
                },
                _ => Err(DecodeErrorKind::MissingField),
            }
        },
        _ => Err(DecodeErrorKind::MalformedJson),
    }
}

fn encode_data_status_fields(x: &DataConnectionStatus) -> (fs: Vec<(String, JsonValue)>)
    ensures
        spec_dec_data_status(JsonValue::Object(fs)) == Ok::<
            DataConnectionStatus,
            DecodeErrorKind,
        >(*x),
        spec_field(fs@, "type"@) is None,
        spec_field(fs@, "command"@) is None,
{
    proof {
        reveal_strlit("remote_id");
        reveal_strlit("open");
        reveal_strlit("reliable");
        reveal_strlit("metadata");
        reveal_strlit("type");
        reveal_strlit("command");
        assert("remote_id"@.len() == 9);
        assert("open"@.len() == 4 && "open"@[0] == 'o');
        assert("reliable"@.len() == 8 && "reliable"@[0] == 'r');
        assert("metadata"@.len() == 8 && "metadata"@[0] == 'm');
        assert("type"@.len() == 4 && "type"@[0] == 't');
        assert("command"@.len() == 7 && "command"@[0] == 'c');
    }
    let mut fs: Vec<(String, JsonValue)> = Vec::new();
    fs.push((String::from_str("remote_id"), JsonValue::Text(x.remote_id.clone())));
    fs.push((String::from_str("open"), JsonValue::Bool(x.is_open)));
    fs.push((String::from_str("reliable"), JsonValue::Bool(x.reliable)));
    fs.push((String::from_str("metadata"), JsonValue::Text(x.metadata.clone())));
    fs
}

fn encode_data_status(x: &DataConnectionStatus) -> (v: JsonValue)
    ensures
        spec_dec_data_status(v) == Ok::<DataConnectionStatus, DecodeErrorKind>(*x),
{
    JsonValue::Object(encode_data_status_fields(x))
}

/// The document form of a media-connection status.
pub open spec fn spec_dec_media_status(v: JsonValue) -> Result<
    MediaConnectionStatus,
    DecodeErrorKind,
> {
    match v {
        JsonValue::Object(fs) => if spec_field(fs@, "remote_id"@) is None || spec_field(
            fs@,
            "open"@,
        ) is None || spec_field(fs@, "metadata"@) is None {
            Err(DecodeErrorKind::MissingField)
        } else {
            match (
                spec_field(fs@, "remote_id"@)->Some_0,
                spec_field(fs@, "open"@)->Some_0,
                spec_field(fs@, "metadata"@)->Some_0,
            ) {
                (JsonValue::Text(r), JsonValue::Bool(o), JsonValue::Text(m)) => Ok(
                    MediaConnectionStatus { remote_id: r, is_open: o, metadata: m },
                ),
                _ => Err(DecodeErrorKind::MalformedJson),
            }
        },
        _ => Err(DecodeErrorKind::MalformedJson),
    }
}

fn decode_media_status(v: &JsonValue) -> (r: Result<MediaConnectionStatus, DecodeErrorKind>)
    ensures
        r == spec_dec_media_status(*v),
{
    match v {
        JsonValue::Object(fs) => {
            match (
                find_field(fs, "remote_id"),
                find_field(fs, "open"),
                find_field(fs, "metadata"),
            ) {
                (Some(rv), Some(ov), Some(mv)) => match (rv, ov, mv) {
                    (JsonValue::Text(rid), JsonValue::Bool(o), JsonValue::Text(m)) => Ok(
                        MediaConnectionStatus {
                            remote_id: rid.clone(),
                            is_open: *o,
                            metadata: m.clone(),
                        },
                    ),
                    _ => Err(DecodeErrorKind::MalformedJson),
                },
                _ => Err(DecodeErrorKind::MissingField),
            }
        },
        _ => Err(DecodeErrorKind::MalformedJson),
    }
}

fn encode_media_status_fields(x: &MediaConnectionStatus) -> (fs: Vec<(String, JsonValue)>)
    ensures
        spec_dec_media_status(JsonValue::Object(fs)) == Ok::<
            MediaConnectionStatus,
            DecodeErrorKind,
        >(*x),
        spec_field(fs@, "type"@) is None,
        spec_field(fs@, "command"@) is None,
{
    proof {
        reveal_strlit("remote_id");
        reveal_strlit("open");
        reveal_strlit("metadata");
        reveal_strlit("type");
        reveal_strlit("command");
        assert("remote_id"@.len() == 9);
        assert("open"@.len() == 4 && "open"@[0] == 'o');
        assert("metadata"@.len() == 8);
        assert("type"@.len() == 4 && "type"@[0] == 't');
        assert("command"@.len() == 7 && "command"@[0] == 'c');
    }
    let mut fs: Vec<(String, JsonValue)> = Vec::new();
    fs.push((String::from_str("remote_id"), JsonValue::Text(x.remote_id.clone())));
    fs.push((String::from_str("open"), JsonValue::Bool(x.is_open)));
    fs.push((String::from_str("metadata"), JsonValue::Text(x.metadata.clone())));
    fs
}

/// The document form of redirect command parameters.
pub open spec fn spec_dec_redirect_params(v: JsonValue) -> Result<
    RedirectDtoParams,
    DecodeErrorKind,
> {
    match v {
        JsonValue::Object(fs) => if spec_field(fs@, "data_connection_id"@) is None
            || spec_field(fs@, "destination_topic"@) is None {
            Err(DecodeErrorKind::MissingField)
        } else {
            match (
                spec_field(fs@, "data_connection_id"@)->Some_0,
                spec_field(fs@, "destination_topic"@)->Some_0,
            ) {
                (JsonValue::Text(c), JsonValue::Text(t)) => Ok(
                    RedirectDtoParams {
                        data_connection_id: DataConnectionId { id: c },
                        destination_topic: t,
                    },
                ),
                _ => Err(DecodeErrorKind::MalformedJson),
            }
        },
        _ => Err(DecodeErrorKind::MalformedJson),
    }
}

fn decode_redirect_params(v: &JsonValue) -> (r: Result<RedirectDtoParams, DecodeErrorKind>)
    ensures
        r == spec_dec_redirect_params(*v),
{
    match v {
        JsonValue::Object(fs) => {
            match (
                find_field(fs, "data_connection_id"),
                find_field(fs, "destination_topic"),
            ) {
                (Some(cv), Some(tv)) => match (cv, tv) {
                    (JsonValue::Text(c), JsonValue::Text(t)) => Ok(
                        RedirectDtoParams {
                            data_connection_id: DataConnectionId { id: c.clone() },
                            destination_topic: t.clone(),
                        },
                    ),
                    _ => Err(DecodeErrorKind::MalformedJson),
                },
                _ => Err(DecodeErrorKind::MissingField),
            }
        },
        _ => Err(DecodeErrorKind::MalformedJson),
    }
}

fn encode_redirect_params(x: &RedirectDtoParams) -> (v: JsonValue)
    ensures
        spec_dec_redirect_params(v) == Ok::<RedirectDtoParams, DecodeErrorKind>(*x),
{
    let mut fs: Vec<(String, JsonValue)> = Vec::new();
    fs.push(
        (
            String::from_str("data_connection_id"),
            JsonValue::Text(x.data_connection_id.id.clone()),
        ),
    );
    fs.push((String::from_str("destination_topic"), JsonValue::Text(x.destination_topic.clone())));
    proof {
        reveal_strlit("data_connection_id");
        reveal_strlit("destination_topic");
        assert("data_connection_id"@.len() == 18);
        assert("destination_topic"@.len() == 17);
    }
    JsonValue::Object(fs)
}

// --- event documents ---

/// The document form of a peer lifecycle event, keyed by its `event`
/// tag; the composite CONNECTION kind carries the fetched status.
pub open spec fn spec_dec_peer_event(v: JsonValue) -> Result<PeerEventEnumDto, DecodeErrorKind> {
    match v {
        JsonValue::Object(fs) => if spec_field(fs@, "event"@) is None {
            Err(DecodeErrorKind::MissingField)
        } else {
            match spec_field(fs@, "event"@)->Some_0 {
                JsonValue::Text(k) => if k@ == "OPEN"@ {
                    if spec_field(fs@, "params"@) is None {
                        Err(DecodeErrorKind::MissingField)
                    } else {
                        match spec_dec_peer_info(spec_field(fs@, "params"@)->Some_0) {
                            Ok(p) => Ok(PeerEventEnumDto::OPEN(p)),
                            Err(e) => Err(e),
                        }
                    }
                } else if k@ == "CLOSE"@ {
                    if spec_field(fs@, "params"@) is None {
                        Err(DecodeErrorKind::MissingField)
                    } else {
                        match spec_dec_peer_info(spec_field(fs@, "params"@)->Some_0) {
                            Ok(p) => Ok(PeerEventEnumDto::CLOSE(p)),
                            Err(e) => Err(e),
                        }
                    }
                } else if k@ == "CONNECTION"@ {
                    if spec_field(fs@, "params"@) is None || spec_field(fs@, "data_params"@)
                        is None || spec_field(fs@, "status"@) is None {
                        Err(DecodeErrorKind::MissingField)
                    } else {
                        match spec_dec_peer_info(spec_field(fs@, "params"@)->Some_0) {
                            Ok(p) => match spec_dec_dc_wrapper(
                                spec_field(fs@, "data_params"@)->Some_0,
                            ) {
                                Ok(d) => match spec_dec_data_status(
                                    spec_field(fs@, "status"@)->Some_0,
                                ) {
                                    Ok(s) => Ok(
                                        PeerEventEnumDto::CONNECTION(
                                            PeerConnectionEventDto {
                                                params: p,
                                                data_params: d,
                                                status: s,
                                            },
                                        ),
                                    ),
                                    Err(e) => Err(e),
                                },
                                Err(e) => Err(e),
                            },
                            Err(e) => Err(e),
                        }
                    }
                } else if k@ == "CALL"@ {
                    if spec_field(fs@, "params"@) is None {
                        Err(DecodeErrorKind::MissingField)
                    } else {
                        match spec_dec_mc_wrapper(spec_field(fs@, "params"@)->Some_0) {
                            Ok(w) => Ok(PeerEventEnumDto::CALL(w)),
                            Err(e) => Err(e),
                        }
                    }
                } else if k@ == "TIMEOUT"@ {
                    Ok(PeerEventEnumDto::TIMEOUT)
                } else {
                    Err(DecodeErrorKind::UnknownTag)
                },
                _ => Err(DecodeErrorKind::MalformedJson),
            }
        },
        _ => Err(DecodeErrorKind::MalformedJson),
    }
}

fn decode_peer_event(v: &JsonValue) -> (r: Result<PeerEventEnumDto, DecodeErrorKind>)
    ensures
        r == spec_dec_peer_event(*v),
{
    match v {
        JsonValue::Object(fs) => {
            match find_field(fs, "event") {
                None => Err(DecodeErrorKind::MissingField),
                Some(JsonValue::Text(k)) => {
                    if text_is(k, "OPEN") {
                        match find_field(fs, "params") {
                            None => Err(DecodeErrorKind::MissingField),
                            Some(p) => match decode_peer_info(p) {
                                Ok(x) => Ok(PeerEventEnumDto::OPEN(x)),
                                Err(e) => Err(e),
                            },
                        }
                    } else if text_is(k, "CLOSE") {
                        match find_field(fs, "params") {
                            None => Err(DecodeErrorKind::MissingField),
                            Some(p) => match decode_peer_info(p) {
                                Ok(x) => Ok(PeerEventEnumDto::CLOSE(x)),
                                Err(e) => Err(e),
                            },
                        }
                    } else if text_is(k, "CONNECTION") {
                        match (
                            find_field(fs, "params"),
                            find_field(fs, "data_params"),
                            find_field(fs, "status"),
                        ) {
                            (Some(pv), Some(dv), Some(sv)) => match decode_peer_info(pv) {
                                Ok(p) => match decode_dc_wrapper(dv) {
                                    Ok(d) => match decode_data_status(sv) {
                                        Ok(s) => Ok(
                                            PeerEventEnumDto::CONNECTION(
                                                PeerConnectionEventDto {
                                                    params: p,
                                                    data_params: d,
                                                    status: s,
                                                },
                                            ),
                                        ),
                                        Err(e) => Err(e),
                                    },
                                    Err(e) => Err(e),
                                },
                                Err(e) => Err(e),
                            },
                            _ => Err(DecodeErrorKind::MissingField),
                        }
                    } else if text_is(k, "CALL") {
                        match find_field(fs, "params") {
                            None => Err(DecodeErrorKind::MissingField),
                            Some(p) => match decode_mc_wrapper(p) {
                                Ok(w) => Ok(PeerEventEnumDto::CALL(w)),
                                Err(e) => Err(e),
                            },
                        }
                    } else if text_is(k, "TIMEOUT") {
                        Ok(PeerEventEnumDto::TIMEOUT)
                    } else {
                        Err(DecodeErrorKind::UnknownTag)
                    }
                },
                Some(_) => Err(DecodeErrorKind::MalformedJson),
            }
        },
        _ => Err(DecodeErrorKind::MalformedJson),
    }
}

fn encode_peer_event_fields(x: &PeerEventEnumDto) -> (fs: Vec<(String, JsonValue)>)
    ensures
        spec_dec_peer_event(JsonValue::Object(fs)) == Ok::<PeerEventEnumDto, DecodeErrorKind>(
            *x,
        ),
        spec_field(fs@, "type"@) is None,
        spec_field(fs@, "command"@) is None,
{
    proof {
        reveal_strlit("type");
        reveal_strlit("command");
        assert("type"@.len() == 4 && "type"@[0] == 't');
        assert("command"@.len() == 7 && "command"@[0] == 'c');

        reveal_strlit("OPEN");
        assert("OPEN"@.len() == 4 && "OPEN"@[0] == 'O');
        reveal_strlit("CLOSE");
        assert("CLOSE"@.len() == 5 && "CLOSE"@[0] == 'C');
        reveal_strlit("CONNECTION");
        assert("CONNECTION"@.len() == 10 && "CONNECTION"@[0] == 'C');
        reveal_strlit("CALL");
        assert("CALL"@.len() == 4 && "CALL"@[0] == 'C');
        reveal_strlit("TIMEOUT");
        assert("TIMEOUT"@.len() == 7 && "TIMEOUT"@[0] == 'T');
        reveal_strlit("event");
        assert("event"@.len() == 5 && "event"@[0] == 'e');
        reveal_strlit("params");
        assert("params"@.len() == 6 && "params"@[0] == 'p');
        reveal_strlit("data_params");
        assert("data_params"@.len() == 11);
        reveal_strlit("status");
        assert("status"@.len() == 6 && "status"@[0] == 's');
    }
    let mut fs: Vec<(String, JsonValue)> = Vec::new();
    match x {
        PeerEventEnumDto::OPEN(p) => {
            fs.push((String::from_str("event"), JsonValue::Text(String::from_str("OPEN"))));
            fs.push((String::from_str("params"), encode_peer_info(p)));
        },
        PeerEventEnumDto::CLOSE(p) => {
            fs.push((String::from_str("event"), JsonValue::Text(String::from_str("CLOSE"))));
            fs.push((String::from_str("params"), encode_peer_info(p)));
        },
        PeerEventEnumDto::CONNECTION(c) => {
            fs.push(
                (String::from_str("event"), JsonValue::Text(String::from_str("CONNECTION"))),
            );
            fs.push((String::from_str("params"), encode_peer_info(&c.params)));
            fs.push((String::from_str("data_params"), encode_dc_wrapper(&c.data_params)));
            fs.push((String::from_str("status"), encode_data_status(&c.status)));
        },
        PeerEventEnumDto::CALL(w) => {
            fs.push((String::from_str("event"), JsonValue::Text(String::from_str("CALL"))));
            fs.push((String::from_str("params"), encode_mc_wrapper(w)));
        },
        PeerEventEnumDto::TIMEOUT => {
            fs.push((String::from_str("event"), JsonValue::Text(String::from_str("TIMEOUT"))));
        },
    }
    fs
}

/// The document form of a data-connection lifecycle event.
pub open spec fn spec_dec_data_event(v: JsonValue) -> Result<
    DataConnectionEventEnum,
    DecodeErrorKind,
> {
    match v {
        JsonValue::Object(fs) => if spec_field(fs@, "event"@) is None {
            Err(DecodeErrorKind::MissingField)
        } else {
            match spec_field(fs@, "event"@)->Some_0 {
                JsonValue::Text(k) => if k@ == "OPEN"@ {
                    if spec_field(fs@, "params"@) is None {
                        Err(DecodeErrorKind::MissingField)
                    } else {
                        match spec_dec_dc_wrapper(spec_field(fs@, "params"@)->Some_0) {
                            Ok(w) => Ok(DataConnectionEventEnum::OPEN(w)),
                            Err(e) => Err(e),
                        }
                    }
                } else if k@ == "CLOSE"@ {
                    if spec_field(fs@, "params"@) is None {
                        Err(DecodeErrorKind::MissingField)
                    } else {
                        match spec_dec_dc_wrapper(spec_field(fs@, "params"@)->Some_0) {
                            Ok(w) => Ok(DataConnectionEventEnum::CLOSE(w)),
                            Err(e) => Err(e),
                        }
                    }
                } else if k@ == "ERROR"@ {
                    if spec_field(fs@, "params"@) is None || spec_field(fs@, "error_message"@)
                        is None {
                        Err(DecodeErrorKind::MissingField)
                    } else {
                        match spec_dec_dc_wrapper(spec_field(fs@, "params"@)->Some_0) {
                            Ok(w) => match spec_field(fs@, "error_message"@)->Some_0 {
                                JsonValue::Text(m) => Ok(
                                    DataConnectionEventEnum::ERROR(
                                        DataConnectionErrorEvent {
                                            data_connection_id: w.data_connection_id,
                                            error_message: m,
                                        },
                                    ),
                                ),
                                _ => Err(DecodeErrorKind::MalformedJson),
                            },
                            Err(e) => Err(e),
                        }
                    }
                } else {
                    Err(DecodeErrorKind::UnknownTag)
                },
                _ => Err(DecodeErrorKind::MalformedJson),
            }
        },
        _ => Err(DecodeErrorKind::MalformedJson),
    }
}

fn decode_data_event(v: &JsonValue) -> (r: Result<DataConnectionEventEnum, DecodeErrorKind>)
    ensures
        r == spec_dec_data_event(*v),
{
    match v {
        JsonValue::Object(fs) => {
            match find_field(fs, "event") {
                None => Err(DecodeErrorKind::MissingField),
                Some(JsonValue::Text(k)) => {
                    if text_is(k, "OPEN") {
                        match find_field(fs, "params") {
                            None => Err(DecodeErrorKind::MissingField),
                            Some(p) => match decode_dc_wrapper(p) {
                                Ok(w) => Ok(DataConnectionEventEnum::OPEN(w)),
                                Err(e) => Err(e),
                            },
                        }
                    } else if text_is(k, "CLOSE") {
                        match find_field(fs, "params") {
                            None => Err(DecodeErrorKind::MissingField),
                            Some(p) => match decode_dc_wrapper(p) {
                                Ok(w) => Ok(DataConnectionEventEnum::CLOSE(w)),
                                Err(e) => Err(e),
                            },
                        }
                    } else if text_is(k, "ERROR") {
                        match (find_field(fs, "params"), find_field(fs, "error_message")) {
                            (Some(pv), Some(mv)) => match decode_dc_wrapper(pv) {
                                Ok(w) => match mv {
                                    JsonValue::Text(m) => Ok(
                                        DataConnectionEventEnum::ERROR(
                                            DataConnectionErrorEvent {
                                                data_connection_id: w.data_connection_id,
                                                error_message: m.clone(),
                                            },
                                        ),
                                    ),
                                    _ => Err(DecodeErrorKind::MalformedJson),
                                },
                                Err(e) => Err(e),
                            },
                            _ => Err(DecodeErrorKind::MissingField),
                        }
                    } else {
                        Err(DecodeErrorKind::UnknownTag)
                    }
                },
                Some(_) => Err(DecodeErrorKind::MalformedJson),
            }
        },
        _ => Err(DecodeErrorKind::MalformedJson),
    }
}

fn encode_data_event_fields(x: &DataConnectionEventEnum) -> (fs: Vec<(String, JsonValue)>)
    ensures
        spec_dec_data_event(JsonValue::Object(fs)) == Ok::<
            DataConnectionEventEnum,
            DecodeErrorKind,
        >(*x),
        spec_field(fs@, "type"@) is None,
        spec_field(fs@, "command"@) is None,
{
    proof {
        reveal_strlit("type");
        reveal_strlit("command");
        assert("type"@.len() == 4 && "type"@[0] == 't');
        assert("command"@.len() == 7 && "command"@[0] == 'c');

        reveal_strlit("OPEN");
        assert("OPEN"@.len() == 4 && "OPEN"@[0] == 'O');
        reveal_strlit("CLOSE");
        assert("CLOSE"@.len() == 5 && "CLOSE"@[0] == 'C');
        reveal_strlit("ERROR");
        assert("ERROR"@.len() == 5 && "ERROR"@[0] == 'E');
        reveal_strlit("event");
        assert("event"@.len() == 5 && "event"@[0] == 'e');
        reveal_strlit("params");
        assert("params"@.len() == 6);
        reveal_strlit("error_message");
        assert("error_message"@.len() == 13);
    }
    let mut fs: Vec<(String, JsonValue)> = Vec::new();
    match x {
        DataConnectionEventEnum::OPEN(w) => {
            fs.push((String::from_str("event"), JsonValue::Text(String::from_str("OPEN"))));
            fs.push((String::from_str("params"), encode_dc_wrapper(w)));
        },
        DataConnectionEventEnum::CLOSE(w) => {
            fs.push((String::from_str("event"), JsonValue::Text(String::from_str("CLOSE"))));
            fs.push((String::from_str("params"), encode_dc_wrapper(w)));
        },
        DataConnectionEventEnum::ERROR(e) => {
            fs.push((String::from_str("event"), JsonValue::Text(String::from_str("ERROR"))));
            let w = DataConnectionIdWrapper {
                data_connection_id: e.data_connection_id.duplicate(),
            };
            fs.push((String::from_str("params"), encode_dc_wrapper(&w)));
            fs.push(
                (
                    String::from_str("error_message"),
                    JsonValue::Text(e.error_message.clone()),
                ),
            );
        },
    }
    fs
}

/// The document form of a media-connection lifecycle event.
pub open spec fn spec_dec_media_event(v: JsonValue) -> Result<
    MediaConnectionEventEnum,
    DecodeErrorKind,
> {
    match v {
        JsonValue::Object(fs) => if spec_field(fs@, "event"@) is None {
            Err(DecodeErrorKind::MissingField)
        } else {
            match spec_field(fs@, "event"@)->Some_0 {
                JsonValue::Text(k) => if k@ == "READY"@ {
                    if spec_field(fs@, "params"@) is None {
                        Err(DecodeErrorKind::MissingField)
                    } else {
                        match spec_dec_mc_wrapper(spec_field(fs@, "params"@)->Some_0) {
                            Ok(w) => Ok(MediaConnectionEventEnum::READY(w)),
                            Err(e) => Err(e),
                        }
                    }
                } else if k@ == "STREAM"@ {
                    if spec_field(fs@, "params"@) is None {
                        Err(DecodeErrorKind::MissingField)
                    } else {
                        match spec_dec_mc_wrapper(spec_field(fs@, "params"@)->Some_0) {
                            Ok(w) => Ok(MediaConnectionEventEnum::STREAM(w)),
                            Err(e) => Err(e),
                        }
                    }
                } else if k@ == "CLOSE"@ {
                    if spec_field(fs@, "params"@) is None {
                        Err(DecodeErrorKind::MissingField)
                    } else {
                        match spec_dec_mc_wrapper(spec_field(fs@, "params"@)->Some_0) {
                            Ok(w) => Ok(MediaConnectionEventEnum::CLOSE(w)),
                            Err(e) => Err(e),
                        }
                    }
                } else {
                    Err(DecodeErrorKind::UnknownTag)
                },
                _ => Err(DecodeErrorKind::MalformedJson),
            }
        },
        _ => Err(DecodeErrorKind::MalformedJson),
    }
}

fn decode_media_event(v: &JsonValue) -> (r: Result<MediaConnectionEventEnum, DecodeErrorKind>)
    ensures
        r == spec_dec_media_event(*v),
{
    match v {
        JsonValue::Object(fs) => {
            match find_field(fs, "event") {
                None => Err(DecodeErrorKind::MissingField),
                Some(JsonValue::Text(k)) => {
                    if text_is(k, "READY") {
                        match find_field(fs, "params") {
                            None => Err(DecodeErrorKind::MissingField),
                            Some(p) => match decode_mc_wrapper(p) {
                                Ok(w) => Ok(MediaConnectionEventEnum::READY(w)),
                                Err(e) => Err(e),
                            },
                        }
                    } else if text_is(k, "STREAM") {
                        match find_field(fs, "params") {
                            None => Err(DecodeErrorKind::MissingField),
                            Some(p) => match decode_mc_wrapper(p) {
                                Ok(w) => Ok(MediaConnectionEventEnum::STREAM(w)),
                                Err(e) => Err(e),
                            },
                        }
                    } else if text_is(k, "CLOSE") {
                        match find_field(fs, "params") {
                            None => Err(DecodeErrorKind::MissingField),
                            Some(p) => match decode_mc_wrapper(p) {
                                Ok(w) => Ok(MediaConnectionEventEnum::CLOSE(w)),
                                Err(e) => Err(e),
                            },
                        }
                    } else {
                        Err(DecodeErrorKind::UnknownTag)
                    }
                },
                Some(_) => Err(DecodeErrorKind::MalformedJson),
            }
        },
        _ => Err(DecodeErrorKind::MalformedJson),
    }
}

fn encode_media_event_fields(x: &MediaConnectionEventEnum) -> (fs: Vec<(String, JsonValue)>)
    ensures
        spec_dec_media_event(JsonValue::Object(fs)) == Ok::<
            MediaConnectionEventEnum,
            DecodeErrorKind,
        >(*x),
        spec_field(fs@, "type"@) is None,
        spec_field(fs@, "command"@) is None,
{
    proof {
        reveal_strlit("type");
        reveal_strlit("command");
        assert("type"@.len() == 4 && "type"@[0] == 't');
        assert("command"@.len() == 7 && "command"@[0] == 'c');

        reveal_strlit("READY");
        assert("READY"@.len() == 5 && "READY"@[0] == 'R');
        reveal_strlit("STREAM");
        assert("STREAM"@.len() == 6 && "STREAM"@[0] == 'S');
        reveal_strlit("CLOSE");
        assert("CLOSE"@.len() == 5 && "CLOSE"@[0] == 'C');
        reveal_strlit("event");
        assert("event"@.len() == 5 && "event"@[0] == 'e');
        reveal_strlit("params");
        assert("params"@.len() == 6);
    }
    let mut fs: Vec<(String, JsonValue)> = Vec::new();
    match x {
        MediaConnectionEventEnum::READY(w) => {
            fs.push((String::from_str("event"), JsonValue::Text(String::from_str("READY"))));
            fs.push((String::from_str("params"), encode_mc_wrapper(w)));
        },
        MediaConnectionEventEnum::STREAM(w) => {
            fs.push((String::from_str("event"), JsonValue::Text(String::from_str("STREAM"))));
            fs.push((String::from_str("params"), encode_mc_wrapper(w)));
        },
        MediaConnectionEventEnum::CLOSE(w) => {
            fs.push((String::from_str("event"), JsonValue::Text(String::from_str("CLOSE"))));
            fs.push((String::from_str("params"), encode_mc_wrapper(w)));
        },
    }
    fs
}

// --- domain documents and the outbound envelope ---

/// The document form of a peer-domain response, keyed by its command tag.
pub open spec fn spec_dec_peer_response(c: Seq<char>, p: JsonValue) -> Result<
    PeerResponseDto,
    DecodeErrorKind,
> {
    if c == "CREATE"@ {
        match spec_dec_peer_info(p) {
            Ok(x) => Ok(PeerResponseDto::Create(x)),
            Err(e) => Err(e),
        }
    } else if c == "STATUS"@ {
        match spec_dec_peer_status(p) {
            Ok(x) => Ok(PeerResponseDto::Status(x)),
            Err(e) => Err(e),
        }
    } else if c == "DELETE"@ {
        match spec_dec_peer_info(p) {
            Ok(x) => Ok(PeerResponseDto::Delete(x)),
            Err(e) => Err(e),
        }
    } else if c == "EVENT"@ {
        match spec_dec_peer_event(p) {
            Ok(x) => Ok(PeerResponseDto::Event(x)),
            Err(e) => Err(e),
        }
    } else {
        Err(DecodeErrorKind::UnknownTag)
    }
}

fn decode_peer_response(c: &String, p: &JsonValue) -> (r: Result<PeerResponseDto, DecodeErrorKind>)
    ensures
        r == spec_dec_peer_response(c@, *p),
{
    if text_is(c, "CREATE") {
        match decode_peer_info(p) {
            Ok(x) => Ok(PeerResponseDto::Create(x)),
            Err(e) => Err(e),
        }
    } else if text_is(c, "STATUS") {
        match decode_peer_status(p) {
            Ok(x) => Ok(PeerResponseDto::Status(x)),
            Err(e) => Err(e),
        }
    } else if text_is(c, "DELETE") {
        match decode_peer_info(p) {
            Ok(x) => Ok(PeerResponseDto::Delete(x)),
            Err(e) => Err(e),
        }
    } else if text_is(c, "EVENT") {
        match decode_peer_event(p) {
            Ok(x) => Ok(PeerResponseDto::Event(x)),
            Err(e) => Err(e),
        }
    } else {
        Err(DecodeErrorKind::UnknownTag)
    }
}

fn encode_peer_response(x: &PeerResponseDto) -> (v: JsonValue)
    ensures
        spec_dec_response(v) == Ok::<ResponseDto, DecodeErrorKind>(ResponseDto::Peer(*x)),
{
    proof {
        reveal_strlit("CREATE");
        assert("CREATE"@.len() == 6 && "CREATE"@[0] == 'C');
        reveal_strlit("STATUS");
        assert("STATUS"@.len() == 6 && "STATUS"@[0] == 'S');
        reveal_strlit("DELETE");
        assert("DELETE"@.len() == 6 && "DELETE"@[0] == 'D');
        reveal_strlit("EVENT");
        assert("EVENT"@.len() == 5 && "EVENT"@[0] == 'E');
        reveal_strlit("PEER");
        assert("PEER"@.len() == 4 && "PEER"@[0] == 'P');
        reveal_strlit("type");
        reveal_strlit("command");
        assert("type"@.len() == 4 && "type"@[0] == 't');
        assert("command"@.len() == 7 && "command"@[0] == 'c');
    }
    let (mut fs, c): (Vec<(String, JsonValue)>, String) = match x {
        PeerResponseDto::Create(p) => (encode_peer_info_fields(p), String::from_str("CREATE")),
        PeerResponseDto::Status(st) => (
            encode_peer_status_fields(st),
            String::from_str("STATUS"),
        ),
        PeerResponseDto::Delete(p) => (encode_peer_info_fields(p), String::from_str("DELETE")),
        PeerResponseDto::Event(e) => (encode_peer_event_fields(e), String::from_str("EVENT")),
    };
    fs.push((String::from_str("type"), JsonValue::Text(String::from_str("PEER"))));
    fs.push((String::from_str("command"), JsonValue::Text(c)));
    JsonValue::Object(fs)
}

/// The document form of a media-domain response, keyed by its command tag.
pub open spec fn spec_dec_media_response(c: Seq<char>, p: JsonValue) -> Result<
    MediaResponseDto,
    DecodeErrorKind,
> {
    if c == "CONTENT_CREATE"@ {
        match spec_dec_socket_media(p) {
            Ok(x) => Ok(MediaResponseDto::ContentCreate(x)),
            Err(e) => Err(e),
        }
    } else if c == "CONTENT_DELETE"@ {
        match spec_dec_media_id_wrapper(p) {
            Ok(x) => Ok(MediaResponseDto::ContentDelete(x)),
            Err(e) => Err(e),
        }
    } else if c == "RTCP_CREATE"@ {
        match spec_dec_socket_rtcp(p) {
            Ok(x) => Ok(MediaResponseDto::RtcpCreate(x)),
            Err(e) => Err(e),
        }
    } else if c == "RTCP_DELETE"@ {
        match spec_dec_rtcp_id_wrapper(p) {
            Ok(x) => Ok(MediaResponseDto::RtcpDelete(x)),
            Err(e) => Err(e),
        }
    } else if c == "CALL"@ {
        match spec_dec_mc_wrapper(p) {
            Ok(x) => Ok(MediaResponseDto::Call(x)),
            Err(e) => Err(e),
        }
    } else if c == "ANSWER"@ {
        match spec_dec_answer(p) {
            Ok(x) => Ok(MediaResponseDto::Answer(x)),
            Err(e) => Err(e),
        }
    } else if c == "EVENT"@ {
        match spec_dec_media_event(p) {
            Ok(x) => Ok(MediaResponseDto::Event(x)),
            Err(e) => Err(e),
        }
    } else if c == "STATUS"@ {
        match spec_dec_media_status(p) {
            Ok(x) => Ok(MediaResponseDto::Status(x)),
            Err(e) => Err(e),
        }
    } else {
        Err(DecodeErrorKind::UnknownTag)
    }
}

fn decode_media_response(c: &String, p: &JsonValue) -> (r: Result<
    MediaResponseDto,
    DecodeErrorKind,
>)
    ensures
        r == spec_dec_media_response(c@, *p),
{
    if text_is(c, "CONTENT_CREATE") {
        match decode_socket_media(p) {
            Ok(x) => Ok(MediaResponseDto::ContentCreate(x)),
            Err(e) => Err(e),
        }
    } else if text_is(c, "CONTENT_DELETE") {
        match decode_media_id_wrapper(p) {
            Ok(x) => Ok(MediaResponseDto::ContentDelete(x)),
            Err(e) => Err(e),
        }
    } else if text_is(c, "RTCP_CREATE") {
        match decode_socket_rtcp(p) {
            Ok(x) => Ok(MediaResponseDto::RtcpCreate(x)),
            Err(e) => Err(e),
        }
    } else if text_is(c, "RTCP_DELETE") {
        match decode_rtcp_id_wrapper(p) {
            Ok(x) => Ok(MediaResponseDto::RtcpDelete(x)),
            Err(e) => Err(e),
        }
    } else if text_is(c, "CALL") {
        match decode_mc_wrapper(p) {
            Ok(x) => Ok(MediaResponseDto::Call(x)),
            Err(e) => Err(e),
        }
    } else if text_is(c, "ANSWER") {
        match decode_answer(p) {
            Ok(x) => Ok(MediaResponseDto::Answer(x)),
            Err(e) => Err(e),
        }
    } else if text_is(c, "EVENT") {
        match decode_media_event(p) {
            Ok(x) => Ok(MediaResponseDto::Event(x)),
            Err(e) => Err(e),
        }
    } else if text_is(c, "STATUS") {
        match decode_media_status(p) {
            Ok(x) => Ok(MediaResponseDto::Status(x)),
            Err(e) => Err(e),
        }
    } else {
        Err(DecodeErrorKind::UnknownTag)
    }
}

fn encode_media_response(x: &MediaResponseDto) -> (v: JsonValue)
    ensures
        spec_dec_response(v) == Ok::<ResponseDto, DecodeErrorKind>(ResponseDto::Media(*x)),
{
    proof {
        reveal_strlit("CONTENT_CREATE");
        assert("CONTENT_CREATE"@.len() == 14 && "CONTENT_CREATE"@[8] == 'C');
        reveal_strlit("CONTENT_DELETE");
        assert("CONTENT_DELETE"@.len() == 14 && "CONTENT_DELETE"@[8] == 'D');
        reveal_strlit("RTCP_CREATE");
        assert("RTCP_CREATE"@.len() == 11 && "RTCP_CREATE"@[5] == 'C');
        reveal_strlit("RTCP_DELETE");
        assert("RTCP_DELETE"@.len() == 11 && "RTCP_DELETE"@[5] == 'D');
        reveal_strlit("CALL");
        assert("CALL"@.len() == 4 && "CALL"@[0] == 'C');
        reveal_strlit("ANSWER");
        assert("ANSWER"@.len() == 6 && "ANSWER"@[0] == 'A');
        reveal_strlit("EVENT");
        assert("EVENT"@.len() == 5 && "EVENT"@[0] == 'E');
        reveal_strlit("STATUS");
        assert("STATUS"@.len() == 6 && "STATUS"@[0] == 'S');
        reveal_strlit("PEER");
        assert("PEER"@.len() == 4 && "PEER"@[0] == 'P');
        reveal_strlit("MEDIA");
        assert("MEDIA"@.len() == 5 && "MEDIA"@[0] == 'M');
        reveal_strlit("type");
        reveal_strlit("command");
        assert("type"@.len() == 4 && "type"@[0] == 't');
        assert("command"@.len() == 7 && "command"@[0] == 'c');
    }
    let (mut fs, c): (Vec<(String, JsonValue)>, String) = match x {
        MediaResponseDto::ContentCreate(so) => (
            encode_socket_media_fields(so),
            String::from_str("CONTENT_CREATE"),
        ),
        MediaResponseDto::ContentDelete(w) => (
            encode_media_id_wrapper_fields(w),
            String::from_str("CONTENT_DELETE"),
        ),
        MediaResponseDto::RtcpCreate(so) => (
            encode_socket_rtcp_fields(so),
            String::from_str("RTCP_CREATE"),
        ),
        MediaResponseDto::RtcpDelete(w) => (
            encode_rtcp_id_wrapper_fields(w),
            String::from_str("RTCP_DELETE"),
        ),
        MediaResponseDto::Call(w) => (encode_mc_wrapper_fields(w), String::from_str("CALL")),
        MediaResponseDto::Answer(a) => (encode_answer_fields(a), String::from_str("ANSWER")),
        MediaResponseDto::Event(e) => (
            encode_media_event_fields(e),
            String::from_str("EVENT"),
        ),
        MediaResponseDto::Status(st) => (
            encode_media_status_fields(st),
            String::from_str("STATUS"),
        ),
    };
    fs.push((String::from_str("type"), JsonValue::Text(String::from_str("MEDIA"))));
    fs.push((String::from_str("command"), JsonValue::Text(c)));
    JsonValue::Object(fs)
}

/// The document form of a data-domain response, keyed by its command tag.
pub open spec fn spec_dec_data_response(c: Seq<char>, p: JsonValue) -> Result<
    DataResponseDto,
    DecodeErrorKind,
> {
    if c == "CREATE"@ {
        match spec_dec_socket_data(p) {
            Ok(x) => Ok(DataResponseDto::Create(x)),
            Err(e) => Err(e),
        }
    } else if c == "CONNECT"@ {
        match spec_dec_dc_wrapper(p) {
            Ok(x) => Ok(DataResponseDto::Connect(x)),
            Err(e) => Err(e),
        }
    } else if c == "DELETE"@ {
        match spec_dec_data_id_wrapper(p) {
            Ok(x) => Ok(DataResponseDto::Delete(x)),
            Err(e) => Err(e),
        }
    } else if c == "DISCONNECT"@ {
        match spec_dec_dc_wrapper(p) {
            Ok(x) => Ok(DataResponseDto::Disconnect(x)),
            Err(e) => Err(e),
        }
    } else if c == "REDIRECT"@ {
        match spec_dec_dc_wrapper(p) {
            Ok(x) => Ok(DataResponseDto::Redirect(x)),
            Err(e) => Err(e),
        }
    } else if c == "EVENT"@ {
        match spec_dec_data_event(p) {
            Ok(x) => Ok(DataResponseDto::Event(x)),
            Err(e) => Err(e),
        }
    } else if c == "STATUS"@ {
        match spec_dec_data_status(p) {
            Ok(x) => Ok(DataResponseDto::Status(x)),
            Err(e) => Err(e),
        }
    } else {
        Err(DecodeErrorKind::UnknownTag)
    }
}

fn decode_data_response(c: &String, p: &JsonValue) -> (r: Result<DataResponseDto, DecodeErrorKind>)
    ensures
        r == spec_dec_data_response(c@, *p),
{
    if text_is(c, "CREATE") {
        match decode_socket_data(p) {
            Ok(x) => Ok(DataResponseDto::Create(x)),
            Err(e) => Err(e),
        }
    } else if text_is(c, "CONNECT") {
        match decode_dc_wrapper(p) {
            Ok(x) => Ok(DataResponseDto::Connect(x)),
            Err(e) => Err(e),
        }
    } else if text_is(c, "DELETE") {
        match decode_data_id_wrapper(p) {
            Ok(x) => Ok(DataResponseDto::Delete(x)),
            Err(e) => Err(e),
        }
    } else if text_is(c, "DISCONNECT") {
        match decode_dc_wrapper(p) {
            Ok(x) => Ok(DataResponseDto::Disconnect(x)),
            Err(e) => Err(e),
        }
    } else if text_is(c, "REDIRECT") {
        match decode_dc_wrapper(p) {
            Ok(x) => Ok(DataResponseDto::Redirect(x)),
            Err(e) => Err(e),
        }
    } else if text_is(c, "EVENT") {
        match decode_data_event(p) {
            Ok(x) => Ok(DataResponseDto::Event(x)),
            Err(e) => Err(e),
        }
    } else if text_is(c, "STATUS") {
        match decode_data_status(p) {
            Ok(x) => Ok(DataResponseDto::Status(x)),
            Err(e) => Err(e),
        }
    } else {
        Err(DecodeErrorKind::UnknownTag)
    }
}

fn encode_data_response(x: &DataResponseDto) -> (v: JsonValue)
    ensures
        spec_dec_response(v) == Ok::<ResponseDto, DecodeErrorKind>(ResponseDto::Data(*x)),
{
    proof {
        reveal_strlit("CREATE");
        assert("CREATE"@.len() == 6 && "CREATE"@[0] == 'C');
        reveal_strlit("CONNECT");
        assert("CONNECT"@.len() == 7 && "CONNECT"@[0] == 'C');
        reveal_strlit("DELETE");
        assert("DELETE"@.len() == 6 && "DELETE"@[0] == 'D');
        reveal_strlit("DISCONNECT");
        assert("DISCONNECT"@.len() == 10 && "DISCONNECT"@[0] == 'D');
        reveal_strlit("REDIRECT");
        assert("REDIRECT"@.len() == 8 && "REDIRECT"@[0] == 'R');
        reveal_strlit("EVENT");
        assert("EVENT"@.len() == 5 && "EVENT"@[0] == 'E');
        reveal_strlit("STATUS");
        assert("STATUS"@.len() == 6 && "STATUS"@[0] == 'S');
        reveal_strlit("PEER");
        assert("PEER"@.len() == 4 && "PEER"@[0] == 'P');
        reveal_strlit("MEDIA");
        assert("MEDIA"@.len() == 5 && "MEDIA"@[0] == 'M');
        reveal_strlit("DATA");
        assert("DATA"@.len() == 4 && "DATA"@[0] == 'D');
        reveal_strlit("type");
        reveal_strlit("command");
        assert("type"@.len() == 4 && "type"@[0] == 't');
        assert("command"@.len() == 7 && "command"@[0] == 'c');
    }
    let (mut fs, c): (Vec<(String, JsonValue)>, String) = match x {
        DataResponseDto::Create(so) => (encode_socket_data_fields(so), String::from_str("CREATE")),
        DataResponseDto::Connect(w) => (encode_dc_wrapper_fields(w), String::from_str("CONNECT")),
        DataResponseDto::Delete(w) => (
            encode_data_id_wrapper_fields(w),
            String::from_str("DELETE"),
        ),
        DataResponseDto::Disconnect(w) => (
            encode_dc_wrapper_fields(w),
            String::from_str("DISCONNECT"),
        ),
        DataResponseDto::Redirect(w) => (
            encode_dc_wrapper_fields(w),
            String::from_str("REDIRECT"),
        ),
        DataResponseDto::Event(e) => (encode_data_event_fields(e), String::from_str("EVENT")),
        DataResponseDto::Status(st) => (
            encode_data_status_fields(st),
            String::from_str("STATUS"),
        ),
    };
    fs.push((String::from_str("type"), JsonValue::Text(String::from_str("DATA"))));
    fs.push((String::from_str("command"), JsonValue::Text(c)));
    JsonValue::Object(fs)
}

/// The document form of a response: one flat object holding the type
/// tag, the command tag, and the payload's members beside them, under
/// their names and in any order, as the tagged-union wire form has
/// them. The payload decoders read the same object and pass over the
/// two tag members.
pub open spec fn spec_dec_response(v: JsonValue) -> Result<ResponseDto, DecodeErrorKind> {
    match v {
        JsonValue::Object(fs) => if spec_field(fs@, "type"@) is None || spec_field(
            fs@,
            "command"@,
        ) is None {
            Err(DecodeErrorKind::MissingField)
        } else {
            match (spec_field(fs@, "type"@)->Some_0, spec_field(fs@, "command"@)->Some_0) {
                (JsonValue::Text(ty), JsonValue::Text(c)) => if ty@ == "PEER"@ {
                    match spec_dec_peer_response(c@, JsonValue::Object(fs)) {
                        Ok(x) => Ok(ResponseDto::Peer(x)),
                        Err(e) => Err(e),
                    }
                } else if ty@ == "MEDIA"@ {
                    match spec_dec_media_response(c@, JsonValue::Object(fs)) {
                        Ok(x) => Ok(ResponseDto::Media(x)),
                        Err(e) => Err(e),
                    }
                } else if ty@ == "DATA"@ {
                    match spec_dec_data_response(c@, JsonValue::Object(fs)) {
                        Ok(x) => Ok(ResponseDto::Data(x)),
                        Err(e) => Err(e),
                    }
                } else {
                    Err(DecodeErrorKind::UnknownTag)
                },
                _ => Err(DecodeErrorKind::MalformedJson),
            }
        },
        _ => Err(DecodeErrorKind::MalformedJson),
    }
}

fn decode_response(v: &JsonValue) -> (r: Result<ResponseDto, DecodeErrorKind>)
    ensures
        r == spec_dec_response(*v),
{
    match v {
        JsonValue::Object(fs) => {
            match (find_field(fs, "type"), find_field(fs, "command")) {
                (Some(tv), Some(cv)) => match (tv, cv) {
                    (JsonValue::Text(ty), JsonValue::Text(c)) => {
                        if text_is(ty, "PEER") {
                            match decode_peer_response(c, v) {
                                Ok(x) => Ok(ResponseDto::Peer(x)),
                                Err(e) => Err(e),
                            }
                        } else if text_is(ty, "MEDIA") {
                            match decode_media_response(c, v) {
                                Ok(x) => Ok(ResponseDto::Media(x)),
                                Err(e) => Err(e),
                            }
                        } else if text_is(ty, "DATA") {
                            match decode_data_response(c, v) {
                                Ok(x) => Ok(ResponseDto::Data(x)),
                                Err(e) => Err(e),
                            }
                        } else {
                            Err(DecodeErrorKind::UnknownTag)
                        }
                    },
                    _ => Err(DecodeErrorKind::MalformedJson),
                },
                _ => Err(DecodeErrorKind::MissingField),
            }
        },
        _ => Err(DecodeErrorKind::MalformedJson),
    }
}

fn encode_response(x: &ResponseDto) -> (v: JsonValue)
    ensures
        spec_dec_response(v) == Ok::<ResponseDto, DecodeErrorKind>(*x),
{
    match x {
        ResponseDto::Peer(pr) => encode_peer_response(pr),
        ResponseDto::Media(mr) => encode_media_response(mr),
        ResponseDto::Data(dr) => encode_data_response(dr),
    }
}

/// The document form of the outbound envelope: an `is_success` flag and
/// a `result` member, under their names and in any order. The payload's
/// shape is unknown until `is_success` is read: a success envelope
/// carries a full response document, an error envelope a plain string.
pub open spec fn spec_dec_envelope(v: JsonValue) -> Result<ResponseDtoResult, DecodeErrorKind> {
    match v {
        JsonValue::Object(fs) => if spec_field(fs@, "is_success"@) is None || spec_field(
            fs@,
            "result"@,
        ) is None {
            Err(DecodeErrorKind::MissingField)
        } else {
            match spec_field(fs@, "is_success"@)->Some_0 {
                JsonValue::Bool(b) => if b {
                    match spec_dec_response(spec_field(fs@, "result"@)->Some_0) {
                        Ok(x) => Ok(ResponseDtoResult::Success(x)),
                        Err(e) => Err(e),
                    }
                } else {
                    match spec_field(fs@, "result"@)->Some_0 {
                        JsonValue::Text(m) => Ok(ResponseDtoResult::Error(m)),
                        _ => Err(DecodeErrorKind::MalformedJson),
                    }
                },
                _ => Err(DecodeErrorKind::MalformedJson),
            }
        },
        _ => Err(DecodeErrorKind::MalformedJson),
    }
}

fn decode_envelope(v: &JsonValue) -> (r: Result<ResponseDtoResult, DecodeErrorKind>)
    ensures
        r == spec_dec_envelope(*v),
{
    match v {
        JsonValue::Object(fs) => {
            match (find_field(fs, "is_success"), find_field(fs, "result")) {
                (Some(bv), Some(rv)) => match bv {
                    JsonValue::Bool(b) => {
                        if *b {
                            match decode_response(rv) {
                                Ok(x) => Ok(ResponseDtoResult::Success(x)),
                                Err(e) => Err(e),
                            }
                        } else {
                            match rv {
                                JsonValue::Text(m) => Ok(ResponseDtoResult::Error(m.clone())),
                                _ => Err(DecodeErrorKind::MalformedJson),
                            }
                        }
                    },
                    _ => Err(DecodeErrorKind::MalformedJson),
                },
                _ => Err(DecodeErrorKind::MissingField),
            }
        },
        _ => Err(DecodeErrorKind::MalformedJson),
    }
}

/// The canonical envelope document: an object holding exactly the two
/// members `is_success` and `result`, in that order. The flag picks the
/// payload's shape: a success envelope's result is a document that
/// decodes to the carried response, an error envelope's result is the
/// plain message text. Exactly one of the two payload shapes is
/// present.
pub open spec fn spec_canonical_envelope(x: ResponseDtoResult, v: JsonValue) -> bool {
    &&& v matches JsonValue::Object(fs)
    &&& fs@.len() == 2
    &&& fs@[0].0@ == "is_success"@
    &&& fs@[1].0@ == "result"@
    &&& (match x {
        ResponseDtoResult::Success(resp) => fs@[0].1 == JsonValue::Bool(true)
            && spec_dec_response(fs@[1].1) == Ok::<ResponseDto, DecodeErrorKind>(resp),
        ResponseDtoResult::Error(m) => fs@[0].1 == JsonValue::Bool(false) && fs@[1].1
            == JsonValue::Text(m),
    })
}

fn encode_envelope(x: &ResponseDtoResult) -> (v: JsonValue)
    ensures
        spec_dec_envelope(v) == Ok::<ResponseDtoResult, DecodeErrorKind>(*x),
        spec_canonical_envelope(*x, v),
{
    proof {
        reveal_strlit("is_success");
        assert("is_success"@.len() == 10);
        reveal_strlit("result");
        assert("result"@.len() == 6);
    }
    let mut fs: Vec<(String, JsonValue)> = Vec::new();
    match x {
        ResponseDtoResult::Success(resp) => {
            fs.push((String::from_str("is_success"), JsonValue::Bool(true)));
            fs.push((String::from_str("result"), encode_response(resp)));
        },
        ResponseDtoResult::Error(m) => {
            fs.push((String::from_str("is_success"), JsonValue::Bool(false)));
            fs.push((String::from_str("result"), JsonValue::Text(m.clone())));
        },
    }
    JsonValue::Object(fs)
}

// --- inbound command documents ---

/// The document form of a peer-domain command, keyed by its command tag.
pub open spec fn spec_dec_peer_request(c: Seq<char>, p: Option<JsonValue>) -> Result<
    PeerRequestDto,
    DecodeErrorKind,
> {
    if p is None {
        Err(DecodeErrorKind::MissingField)
    } else if c == "CREATE"@ {
        match spec_dec_peer_info(p->Some_0) {
            Ok(x) => Ok(PeerRequestDto::Create { params: x }),
            Err(e) => Err(e),
        }
    } else if c == "STATUS"@ {
        match spec_dec_peer_info(p->Some_0) {
            Ok(x) => Ok(PeerRequestDto::Status { params: x }),
            Err(e) => Err(e),
        }
    } else if c == "DELETE"@ {
        match spec_dec_peer_info(p->Some_0) {
            Ok(x) => Ok(PeerRequestDto::Delete { params: x }),
            Err(e) => Err(e),
        }
    } else {
        Err(DecodeErrorKind::UnknownTag)
    }
}

fn decode_peer_request(c: &String, po: Option<&JsonValue>) -> (r: Result<
    PeerRequestDto,
    DecodeErrorKind,
>)
    ensures
        (match po {
            Some(p) => r == spec_dec_peer_request(c@, Some(*p)),
            None => r == spec_dec_peer_request(c@, None::<JsonValue>),
        }),
{
    let p = match po {
        Some(p) => p,
        None => {
            return Err(DecodeErrorKind::MissingField);
        },
    };
    if text_is(c, "CREATE") {
        match decode_peer_info(p) {
            Ok(x) => Ok(PeerRequestDto::Create { params: x }),
            Err(e) => Err(e),
        }
    } else if text_is(c, "STATUS") {
        match decode_peer_info(p) {
            Ok(x) => Ok(PeerRequestDto::Status { params: x }),
            Err(e) => Err(e),
        }
    } else if text_is(c, "DELETE") {
        match decode_peer_info(p) {
            Ok(x) => Ok(PeerRequestDto::Delete { params: x }),
            Err(e) => Err(e),
        }
    } else {
        Err(DecodeErrorKind::UnknownTag)
    }
}

fn encode_peer_request(x: &PeerRequestDto) -> (r: (String, Option<JsonValue>))
    ensures
        spec_dec_peer_request(r.0@, r.1) == Ok::<PeerRequestDto, DecodeErrorKind>(*x),
        r.1 is Some,
{
    proof {
        reveal_strlit("CREATE");
        assert("CREATE"@.len() == 6 && "CREATE"@[0] == 'C');
        reveal_strlit("STATUS");
        assert("STATUS"@.len() == 6 && "STATUS"@[0] == 'S');
        reveal_strlit("DELETE");
        assert("DELETE"@.len() == 6 && "DELETE"@[0] == 'D');
    }
    match x {
        PeerRequestDto::Create { params } => (
            String::from_str("CREATE"),
            Some(encode_peer_info(params)),
        ),
        PeerRequestDto::Status { params } => (
            String::from_str("STATUS"),
            Some(encode_peer_info(params)),
        ),
        PeerRequestDto::Delete { params } => (
            String::from_str("DELETE"),
            Some(encode_peer_info(params)),
        ),
    }
}

/// The document form of a media-domain command, keyed by its command tag.
pub open spec fn spec_dec_media_request(c: Seq<char>, p: Option<JsonValue>) -> Result<
    MediaRequestDto,
    DecodeErrorKind,
> {
    if p is None {
        Err(DecodeErrorKind::MissingField)
    } else if c == "CALL"@ {
        match spec_dec_mc_wrapper(p->Some_0) {
            Ok(x) => Ok(MediaRequestDto::Call { params: x }),
            Err(e) => Err(e),
        }
    } else if c == "ANSWER"@ {
        match spec_dec_mc_wrapper(p->Some_0) {
            Ok(x) => Ok(MediaRequestDto::Answer { params: x }),
            Err(e) => Err(e),
        }
    } else if c == "STATUS"@ {
        match spec_dec_mc_wrapper(p->Some_0) {
            Ok(x) => Ok(MediaRequestDto::Status { params: x }),
            Err(e) => Err(e),
        }
    } else {
        Err(DecodeErrorKind::UnknownTag)
    }
}

fn decode_media_request(c: &String, po: Option<&JsonValue>) -> (r: Result<
    MediaRequestDto,
    DecodeErrorKind,
>)
    ensures
        (match po {
            Some(p) => r == spec_dec_media_request(c@, Some(*p)),
            None => r == spec_dec_media_request(c@, None::<JsonValue>),
        }),
{
    let p = match po {
        Some(p) => p,
        None => {
            return Err(DecodeErrorKind::MissingField);
        },
    };
    if text_is(c, "CALL") {
        match decode_mc_wrapper(p) {
            Ok(x) => Ok(MediaRequestDto::Call { params: x }),
            Err(e) => Err(e),
        }
    } else if text_is(c, "ANSWER") {
        match decode_mc_wrapper(p) {
            Ok(x) => Ok(MediaRequestDto::Answer { params: x }),
            Err(e) => Err(e),
        }
    } else if text_is(c, "STATUS") {
        match decode_mc_wrapper(p) {
            Ok(x) => Ok(MediaRequestDto::Status { params: x }),
            Err(e) => Err(e),
        }
    } else {
        Err(DecodeErrorKind::UnknownTag)
    }
}

fn encode_media_request(x: &MediaRequestDto) -> (r: (String, Option<JsonValue>))
    ensures
        spec_dec_media_request(r.0@, r.1) == Ok::<MediaRequestDto, DecodeErrorKind>(*x),
        r.1 is Some,
{
    proof {
        reveal_strlit("CALL");
        assert("CALL"@.len() == 4 && "CALL"@[0] == 'C');
        reveal_strlit("ANSWER");
        assert("ANSWER"@.len() == 6 && "ANSWER"@[0] == 'A');
        reveal_strlit("STATUS");
        assert("STATUS"@.len() == 6 && "STATUS"@[0] == 'S');
    }
    match x {
        MediaRequestDto::Call { params } => (
            String::from_str("CALL"),
            Some(encode_mc_wrapper(params)),
        ),
        MediaRequestDto::Answer { params } => (
            String::from_str("ANSWER"),
            Some(encode_mc_wrapper(params)),
        ),
        MediaRequestDto::Status { params } => (
            String::from_str("STATUS"),
            Some(encode_mc_wrapper(params)),
        ),
    }
}

/// The document form of a data-domain command, keyed by its command tag.
/// A create command carries no parameters: its params member may be
/// absent, and any present one is passed over, as a tagged union
/// ignores members its variant does not read.
pub open spec fn spec_dec_data_request(c: Seq<char>, p: Option<JsonValue>) -> Result<
    DataRequestDto,
    DecodeErrorKind,
> {
    if c == "CREATE"@ {
        Ok(DataRequestDto::Create)
    } else if p is None {
        Err(DecodeErrorKind::MissingField)
    } else if c == "CONNECT"@ {
        match spec_dec_dc_wrapper(p->Some_0) {
            Ok(x) => Ok(DataRequestDto::Connect { params: x }),
            Err(e) => Err(e),
        }
    } else if c == "DELETE"@ {
        match spec_dec_data_id_wrapper(p->Some_0) {
            Ok(x) => Ok(DataRequestDto::Delete { params: x }),
            Err(e) => Err(e),
        }
    } else if c == "DISCONNECT"@ {
        match spec_dec_dc_wrapper(p->Some_0) {
            Ok(x) => Ok(DataRequestDto::Disconnect { params: x }),
            Err(e) => Err(e),
        }
    } else if c == "REDIRECT"@ {
        match spec_dec_redirect_params(p->Some_0) {
            Ok(x) => Ok(DataRequestDto::Redirect { params: x }),
            Err(e) => Err(e),
        }
    } else if c == "STATUS"@ {
        match spec_dec_dc_wrapper(p->Some_0) {
            Ok(x) => Ok(DataRequestDto::Status { params: x }),
            Err(e) => Err(e),
        }
    } else {
        Err(DecodeErrorKind::UnknownTag)
    }
}

fn decode_data_request(c: &String, po: Option<&JsonValue>) -> (r: Result<
    DataRequestDto,
    DecodeErrorKind,
>)
    ensures
        (match po {
            Some(p) => r == spec_dec_data_request(c@, Some(*p)),
            None => r == spec_dec_data_request(c@, None::<JsonValue>),
        }),
{
    if text_is(c, "CREATE") {
        return Ok(DataRequestDto::Create);
    }
    let p = match po {
        Some(p) => p,
        None => {
            return Err(DecodeErrorKind::MissingField);
        },
    };
    if text_is(c, "CONNECT") {
        match decode_dc_wrapper(p) {
            Ok(x) => Ok(DataRequestDto::Connect { params: x }),
            Err(e) => Err(e),
        }
    } else if text_is(c, "DELETE") {
        match decode_data_id_wrapper(p) {
            Ok(x) => Ok(DataRequestDto::Delete { params: x }),
            Err(e) => Err(e),
        }
    } else if text_is(c, "DISCONNECT") {
        match decode_dc_wrapper(p) {
            Ok(x) => Ok(DataRequestDto::Disconnect { params: x }),
            Err(e) => Err(e),
        }
    } else if text_is(c, "REDIRECT") {
        match decode_redirect_params(p) {
            Ok(x) => Ok(DataRequestDto::Redirect { params: x }),
            Err(e) => Err(e),
        }
    } else if text_is(c, "STATUS") {
        match decode_dc_wrapper(p) {
            Ok(x) => Ok(DataRequestDto::Status { params: x }),
            Err(e) => Err(e),
        }
    } else {
        Err(DecodeErrorKind::UnknownTag)
    }
}

fn encode_data_request(x: &DataRequestDto) -> (r: (String, Option<JsonValue>))
    ensures
        spec_dec_data_request(r.0@, r.1) == Ok::<DataRequestDto, DecodeErrorKind>(*x),
{
    proof {
        reveal_strlit("CREATE");
        assert("CREATE"@.len() == 6 && "CREATE"@[0] == 'C');
        reveal_strlit("CONNECT");
        assert("CONNECT"@.len() == 7 && "CONNECT"@[0] == 'C');
        reveal_strlit("DELETE");
        assert("DELETE"@.len() == 6 && "DELETE"@[0] == 'D');
        reveal_strlit("DISCONNECT");
        assert("DISCONNECT"@.len() == 10 && "DISCONNECT"@[0] == 'D');
        reveal_strlit("REDIRECT");
        assert("REDIRECT"@.len() == 8 && "REDIRECT"@[0] == 'R');
        reveal_strlit("STATUS");
        assert("STATUS"@.len() == 6 && "STATUS"@[0] == 'S');
    }
    match x {
        DataRequestDto::Create => (String::from_str("CREATE"), None),
        DataRequestDto::Connect { params } => (
            String::from_str("CONNECT"),
            Some(encode_dc_wrapper(params)),
        ),
        DataRequestDto::Delete { params } => (
            String::from_str("DELETE"),
            Some(encode_data_id_wrapper(params)),
        ),
        DataRequestDto::Disconnect { params } => (
            String::from_str("DISCONNECT"),
            Some(encode_dc_wrapper(params)),
        ),
        DataRequestDto::Redirect { params } => (
            String::from_str("REDIRECT"),
            Some(encode_redirect_params(params)),
        ),
        DataRequestDto::Status { params } => (
            String::from_str("STATUS"),
            Some(encode_dc_wrapper(params)),
        ),
    }
}

/// The document form of an inbound command: a type tag, a command tag,
/// and the command's parameter document, under their names and in any
/// order. A command that carries no parameters needs no params member;
/// a missing one is reported only where the command reads it.
pub open spec fn spec_dec_request(v: JsonValue) -> Result<RequestDto, DecodeErrorKind> {
    match v {
        JsonValue::Object(fs) => if spec_field(fs@, "type"@) is None || spec_field(
            fs@,
            "command"@,
        ) is None {
            Err(DecodeErrorKind::MissingField)
        } else {
            match (spec_field(fs@, "type"@)->Some_0, spec_field(fs@, "command"@)->Some_0) {
                (JsonValue::Text(ty), JsonValue::Text(c)) => if ty@ == "PEER"@ {
                    match spec_dec_peer_request(c@, spec_field(fs@, "params"@)) {
                        Ok(x) => Ok(RequestDto::Peer(x)),
                        Err(e) => Err(e),
                    }
                } else if ty@ == "MEDIA"@ {
                    match spec_dec_media_request(c@, spec_field(fs@, "params"@)) {
                        Ok(x) => Ok(RequestDto::Media(x)),
                        Err(e) => Err(e),
                    }
                } else if ty@ == "DATA"@ {
                    match spec_dec_data_request(c@, spec_field(fs@, "params"@)) {
                        Ok(x) => Ok(RequestDto::Data(x)),
                        Err(e) => Err(e),
                    }
                } else {
                    Err(DecodeErrorKind::UnknownTag)
                },
                _ => Err(DecodeErrorKind::MalformedJson),
            }
        },
        _ => Err(DecodeErrorKind::MalformedJson),
    }
}

fn decode_request(v: &JsonValue) -> (r: Result<RequestDto, DecodeErrorKind>)
    ensures
        r == spec_dec_request(*v),
{
    match v {
        JsonValue::Object(fs) => {
            match (find_field(fs, "type"), find_field(fs, "command")) {
                (Some(tv), Some(cv)) => match (tv, cv) {
                    (JsonValue::Text(ty), JsonValue::Text(c)) => {
                        let pv = find_field(fs, "params");
                        if text_is(ty, "PEER") {
                            match decode_peer_request(c, pv) {
                                Ok(x) => Ok(RequestDto::Peer(x)),
                                Err(e) => Err(e),
                            }
                        } else if text_is(ty, "MEDIA") {
                            match decode_media_request(c, pv) {
                                Ok(x) => Ok(RequestDto::Media(x)),
                                Err(e) => Err(e),
                            }
                        } else if text_is(ty, "DATA") {
                            match decode_data_request(c, pv) {
                                Ok(x) => Ok(RequestDto::Data(x)),
                                Err(e) => Err(e),
                            }
                        } else {
                            Err(DecodeErrorKind::UnknownTag)
                        }
                    },
                    _ => Err(DecodeErrorKind::MalformedJson),
                },
                _ => Err(DecodeErrorKind::MissingField),
            }
        },
        _ => Err(DecodeErrorKind::MalformedJson),
    }
}

fn encode_request(x: &RequestDto) -> (v: JsonValue)
    ensures
        spec_dec_request(v) == Ok::<RequestDto, DecodeErrorKind>(*x),
{
    proof {
        reveal_strlit("PEER");
        assert("PEER"@.len() == 4 && "PEER"@[0] == 'P');
        reveal_strlit("MEDIA");
        assert("MEDIA"@.len() == 5 && "MEDIA"@[0] == 'M');
        reveal_strlit("DATA");
        assert("DATA"@.len() == 4 && "DATA"@[0] == 'D');
        reveal_strlit("type");
        assert("type"@.len() == 4 && "type"@[0] == 't');
        reveal_strlit("command");
        assert("command"@.len() == 7 && "command"@[0] == 'c');
        reveal_strlit("params");
        assert("params"@.len() == 6 && "params"@[0] == 'p');
    }
    let (ty, c, p): (String, String, Option<JsonValue>) = match x {
        RequestDto::Peer(pr) => {
            let (c, p) = encode_peer_request(pr);
            (String::from_str("PEER"), c, p)
        },
        RequestDto::Media(mr) => {
            let (c, p) = encode_media_request(mr);
            (String::from_str("MEDIA"), c, p)
        },
        RequestDto::Data(dr) => {
            let (c, p) = encode_data_request(dr);
            (String::from_str("DATA"), c, p)
        },
    };
    let mut fs: Vec<(String, JsonValue)> = Vec::new();
    fs.push((String::from_str("type"), JsonValue::Text(ty)));
    fs.push((String::from_str("command"), JsonValue::Text(c)));
    match p {
        Some(payload) => fs.push((String::from_str("params"), payload)),
        None => (),
    }
    JsonValue::Object(fs)
}

// --- the public face of the protocol model ---

impl ResponseDtoResult {
    /// Decodes an envelope document: the outer shape first, then the
    /// typed payload the `is_success` flag announces. Members are read
    /// by name in any order, and unknown members are ignored; the
    /// failing kind is reported on every document outside the schema.
    pub fn from_json(v: &JsonValue) -> (r: Result<ResponseDtoResult, Error>)
        ensures
            (match spec_dec_envelope(*v) {
                Ok(x) => r == Ok::<ResponseDtoResult, Error>(x),
                Err(k) => r == Err::<ResponseDtoResult, Error>(Error::Decode(k)),
            }),
    {
        match decode_envelope(v) {
            Ok(x) => Ok(x),
            Err(k) => Err(Error::Decode(k)),
        }
    }

    /// Encodes this envelope; never fails, and the emitted document is
    /// the canonical envelope: exactly the members `is_success` and
    /// `result`, in that order, with the payload shape the flag picks.
    /// The document decodes back to this very value: together with
    /// `from_json`, encoding then decoding an envelope is the identity.
    pub fn to_json(&self) -> (v: JsonValue)
        ensures
            spec_dec_envelope(v) == Ok::<ResponseDtoResult, DecodeErrorKind>(*self),
            spec_canonical_envelope(*self, v),
    {
        encode_envelope(self)
    }
}

impl RequestDto {
    /// Decodes an inbound command document. Members are read by name in
    /// any order, and unknown members are ignored; the failing kind is
    /// reported on every document outside the schema.
    pub fn from_json(v: &JsonValue) -> (r: Result<RequestDto, Error>)
        ensures
            (match spec_dec_request(*v) {
                Ok(x) => r == Ok::<RequestDto, Error>(x),
                Err(k) => r == Err::<RequestDto, Error>(Error::Decode(k)),
            }),
    {
        match decode_request(v) {
            Ok(x) => Ok(x),
            Err(k) => Err(Error::Decode(k)),
        }
    }

    /// Encodes this command; the result decodes back to this very
    /// value: together with `from_json`, encoding then decoding a
    /// command is the identity, for every command variant.
    pub fn to_json(&self) -> (v: JsonValue)
        ensures
            spec_dec_request(v) == Ok::<RequestDto, DecodeErrorKind>(*self),
    {
        encode_request(self)
    }
}

} // verus!
