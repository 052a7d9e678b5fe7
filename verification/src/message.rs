//! The messages of the protocol: the JSON payloads and the frames that
//! carry them.

use vstd::prelude::*;
use crate::activity::Activity;
use crate::activity::ActivityView;
use crate::error::IpcError;
use crate::frame::encode_frame;
use crate::frame::frame_bytes;
use crate::frame::Opcode;
use crate::json::json_bytes;
use crate::json::members_view;
use crate::json::push_member;
use crate::json::Json;
use crate::json::JsonView;

verus! {

/// The version of the protocol that the handshake declares.
pub const PROTOCOL_VERSION: i64 = 1;

/// The payload of the handshake: the protocol version and the client ID.
/// The order of the members is that of the value; the text has them sorted
/// by name.
pub open spec fn handshake_json(client_id: Seq<char>) -> JsonView {
    JsonView::Object(
        seq![
            ("v"@, JsonView::Number(PROTOCOL_VERSION as int)),
            ("client_id"@, JsonView::String(client_id)),
        ],
    )
}

/// The payload of a `SET_ACTIVITY` command: the command's name, its
/// arguments (the process ID of the sender and the activity), and the nonce
/// by which the answer is told from others. The order of the members is
/// that of the value; the text has them sorted by name.
pub open spec fn set_activity_json(pid: u32, nonce: Seq<char>, activity: ActivityView) -> JsonView {
    JsonView::Object(
        seq![
            ("cmd"@, JsonView::String("SET_ACTIVITY"@)),
            (
                "args"@,
                JsonView::Object(
                    seq![("pid"@, JsonView::Number(pid as int)), ("activity"@, activity.json())],
                ),
            ),
            ("nonce"@, JsonView::String(nonce)),
        ],
    )
}

/// The payload of the frame that announces the end of the session: an
/// empty object.
pub open spec fn close_json() -> JsonView {
    JsonView::Object(Seq::empty())
}

/// The payload of the handshake for `client_id`.
pub fn handshake_payload(client_id: &str) -> (payload: Json)
    ensures
        payload@ == handshake_json(client_id@),
{
    let mut members: Vec<(String, Json)> = Vec::new();
    assert(members_view(members@) =~= Seq::empty());
    push_member(&mut members, "v", Some(Json::number(PROTOCOL_VERSION)));
    push_member(&mut members, "client_id", Some(Json::text(client_id)));
    assert(members_view(members@) =~= handshake_json(client_id@)->Object_0);
    Json::object(members)
}

/// The payload of the `SET_ACTIVITY` command that shows `activity` for the
/// process `pid`.
pub fn set_activity_payload(pid: u32, nonce: &str, activity: &Activity) -> (payload: Json)
    ensures
        payload@ == set_activity_json(pid, nonce@, activity@),
{
    let mut args: Vec<(String, Json)> = Vec::new();
    assert(members_view(args@) =~= Seq::empty());
    push_member(&mut args, "pid", Some(Json::number(pid as i64)));
    push_member(&mut args, "activity", Some(activity.to_json()));
    let ghost args_json = seq![
        ("pid"@, JsonView::Number(pid as int)),
        ("activity"@, activity@.json()),
    ];
    assert(members_view(args@) =~= args_json);

    let mut members: Vec<(String, Json)> = Vec::new();
    assert(members_view(members@) =~= Seq::empty());
    push_member(&mut members, "cmd", Some(Json::text("SET_ACTIVITY")));
    push_member(&mut members, "args", Some(Json::object(args)));
    push_member(&mut members, "nonce", Some(Json::text(nonce)));
    assert(members_view(members@) =~= set_activity_json(pid, nonce@, activity@)->Object_0);
    Json::object(members)
}

/// The payload of the closing frame.
pub fn close_payload() -> (payload: Json)
    ensures
        payload@ == close_json(),
{
    let members: Vec<(String, Json)> = Vec::new();
    assert(members_view(members@) =~= Seq::empty());
    Json::object(members)
}

/// The frame for the payload `json` under `opcode`: the header and the
/// text of `json`. A text that is too long for the length field of a frame
/// has none.
pub open spec fn message_frame(opcode: Opcode, json: JsonView) -> Result<Seq<u8>, IpcError> {
    if json_bytes(json).len() <= u32::MAX {
        Ok(frame_bytes(opcode.wire(), json_bytes(json)))
    } else {
        Err(IpcError::Serialization)
    }
}

/// The bytes of a frame that was built, or the error.
pub open spec fn frame_view(r: Result<Vec<u8>, IpcError>) -> Result<Seq<u8>, IpcError> {
    match r {
        Ok(bytes) => Ok(bytes@),
        Err(e) => Err(e),
    }
}

/// The frame that carries `payload` under `opcode`.
///
/// The payload is the compact JSON text that `serde_json` writes. Only a
/// text that is too long for the length field of a frame is refused.
pub fn encode_message(opcode: Opcode, payload: &Json) -> (r: Result<Vec<u8>, IpcError>)
    ensures
        frame_view(r) == message_frame(opcode, payload@),
{
    match payload.to_bytes() {
        Ok(text) => encode_frame(opcode.code(), text.as_slice()),
        Err(e) => Err(e),
    }
}

} // verus!
