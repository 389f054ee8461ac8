//! The text exchanged with the editor's web view: the page address, the
//! scripts injected into the page, and the HTTP reply that carries state
//! packets where the page polls for them.

use vstd::prelude::*;
use crate::text::{append_decimal, decimal};

verus! {

/// Address of the editor page.
pub const WIDEBOI_URL: &'static str = "https://wideboi.hardwavestudios.com/vst/wideboi";

/// Start of the page's start-up script, up to the plug-in version.
pub const INIT_SCRIPT_HEAD: &'static str = "\n(function() {\n    var _focusTimer = null;\n    window.addEventListener('mouseup', function(e) {\n        if (e.target.tagName !== 'INPUT') {\n            clearTimeout(_focusTimer);\n            _focusTimer = setTimeout(function() {\n                try { window.ipc.postMessage(JSON.stringify({ type: 'release_focus' })); } catch(_) {}\n            }, 500);\n        }\n    }, true);\n    document.addEventListener('blur', function(e) {\n        if (e.target.tagName === 'INPUT') {\n            clearTimeout(_focusTimer);\n            try { window.ipc.postMessage(JSON.stringify({ type: 'release_focus' })); } catch(_) {}\n        }\n    }, true);\n})();\n\nwindow.__HARDWAVE_VST = true;\nwindow.__HARDWAVE_VST_VERSION = '";

/// Between the plug-in version and the machine id.
pub const INIT_SCRIPT_AFTER_VERSION: &'static str = "';\nwindow.__HARDWAVE_MACHINE_ID = '";

/// Between the machine id and the first state packet.
pub const INIT_SCRIPT_AFTER_MACHINE: &'static str = "';\nwindow.__hardwave = {\n    postMessage: function(msg) {\n        window.ipc.postMessage(JSON.stringify(msg));\n    }\n};\n\n(function() {\n    var _init = ";

/// After the first state packet.
pub const INIT_SCRIPT_TAIL: &'static str = ";\n    function pushInit() {\n        if (window.__onWbPacket) {\n            window.__onWbPacket(_init);\n        } else {\n            setTimeout(pushInit, 50);\n        }\n    }\n    if (document.readyState === 'complete') { pushInit(); }\n    else { window.addEventListener('load', pushInit); }\n})();\n";

/// Start of the polling script, up to the port number.
pub const POLL_SCRIPT_HEAD: &'static str = "\n(function() {\n    var _port = ";

/// After the port number.
pub const POLL_SCRIPT_TAIL: &'static str = ";\n    function poll() {\n        fetch('http://127.0.0.1:' + _port)\n            .then(function(r) { return r.json(); })\n            .then(function(data) {\n                if (window.__onWbPacket) window.__onWbPacket(data);\n            })\n            .catch(function() {});\n        setTimeout(poll, 16);\n    }\n    poll();\n})();\n";

/// Start of the call that hands the page a state packet.
pub const PACKET_CALL_HEAD: &'static str = "window.__onWbPacket && window.__onWbPacket(";

/// Status line and headers of the reply to a poll, up to the body length.
pub const POLL_REPLY_HEAD: &'static str = "HTTP/1.1 200 OK\r\nAccess-Control-Allow-Origin: *\r\nContent-Type: application/json\r\nContent-Length: ";

/// End of the headers.
pub const POLL_REPLY_HEADERS_END: &'static str = "\r\n\r\n";

/// The page address: with the sign-in token when there is one, and the
/// plug-in version.
pub open spec fn spec_editor_url(token: Option<Seq<char>>, version: Seq<char>) -> Seq<char> {
    match token {
        Some(t) => WIDEBOI_URL@ + "?token="@ + t + "&v="@ + version,
        None => WIDEBOI_URL@ + "?v="@ + version,
    }
}

/// The editor page's address.
pub fn editor_url(token: Option<&str>, version: &str) -> (url: String)
    ensures
        url@ == spec_editor_url(
            match token {
                Some(t) => Some(t@),
                None => None,
            },
            version@,
        ),
{
    let mut url = String::from_str(WIDEBOI_URL);
    match token {
        Some(t) => {
            url.append("?token=");
            url.append(t);
            url.append("&v=");
        },
        None => {
            url.append("?v=");
        },
    }
    url.append(version);
    url
}

/// The script run when the page loads: it wires up focus release and the
/// message bridge, and hands the page `initial_json` as its first state.
pub fn init_script(version: &str, machine_id: &str, initial_json: &str) -> (js: String)
    ensures
        js@ == INIT_SCRIPT_HEAD@ + version@ + INIT_SCRIPT_AFTER_VERSION@ + machine_id@
            + INIT_SCRIPT_AFTER_MACHINE@ + initial_json@ + INIT_SCRIPT_TAIL@,
{
    let mut js = String::from_str(INIT_SCRIPT_HEAD);
    js.append(version);
    js.append(INIT_SCRIPT_AFTER_VERSION);
    js.append(machine_id);
    js.append(INIT_SCRIPT_AFTER_MACHINE);
    js.append(initial_json);
    js.append(INIT_SCRIPT_TAIL);
    js
}

/// The start-up script followed, on a new line, by a script that polls the
/// local server on `port` for state packets.
pub fn init_script_with_polling(base: &str, port: u16) -> (js: String)
    ensures
        js@ == base@ + "\n"@ + POLL_SCRIPT_HEAD@ + decimal(port as nat) + POLL_SCRIPT_TAIL@,
{
    let mut js = String::from_str(base);
    js.append("\n");
    js.append(POLL_SCRIPT_HEAD);
    append_decimal(&mut js, port as u64);
    js.append(POLL_SCRIPT_TAIL);
    js
}

/// The script that hands the page one state packet.
pub fn packet_script(packet_json: &str) -> (js: String)
    ensures
        js@ == PACKET_CALL_HEAD@ + packet_json@ + ")"@,
{
    let mut js = String::from_str(PACKET_CALL_HEAD);
    js.append(packet_json);
    js.append(")");
    js
}

/// The HTTP reply to a poll, carrying `body` (the latest state packet) and
/// stating its length in bytes.
pub fn poll_reply(body: &str) -> (reply: String)
    ensures
        reply@ == POLL_REPLY_HEAD@ + decimal(body.len() as nat) + POLL_REPLY_HEADERS_END@
            + body@,
{
    let mut reply = String::from_str(POLL_REPLY_HEAD);
    let n = body.len();
    append_decimal(&mut reply, n as u64);
    reply.append(POLL_REPLY_HEADERS_END);
    reply.append(body);
    reply
}

/// The page address carries the sign-in token exactly as given, whatever it
/// is, between `?token=` and `&v=` and the version; without a token only
/// the version follows.
pub proof fn lemma_editor_url_carries_token(token: Seq<char>, version: Seq<char>)
    ensures
        spec_editor_url(Some(token), version) == "https://wideboi.hardwavestudios.com/vst/wideboi?token="@
            + token + "&v="@ + version,
        spec_editor_url(None, version) == "https://wideboi.hardwavestudios.com/vst/wideboi?v="@
            + version,
{
    reveal_strlit("https://wideboi.hardwavestudios.com/vst/wideboi");
    reveal_strlit("?token=");
    reveal_strlit("?v=");
    reveal_strlit("https://wideboi.hardwavestudios.com/vst/wideboi?token=");
    reveal_strlit("https://wideboi.hardwavestudios.com/vst/wideboi?v=");
    assert(WIDEBOI_URL@ + "?token="@ =~= "https://wideboi.hardwavestudios.com/vst/wideboi?token="@);
    assert(WIDEBOI_URL@ + "?v="@ =~= "https://wideboi.hardwavestudios.com/vst/wideboi?v="@);
}

} // verus!
