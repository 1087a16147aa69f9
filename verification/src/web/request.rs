//! Telling the browser's page request from its WebSocket request.
use crate::util::{ascii_lowercase, has_substring, str_contains, str_to_lowercase, to_lowercase};
use vstd::prelude::*;

verus! {

/// Whether the start of a request, `preview`, asks for the live WebSocket
/// feed: it names the `/ws` path and, in any letter case, an upgrade.
pub open spec fn requests_websocket(preview: Seq<char>) -> bool {
    &&& has_substring(preview, seq!['/', 'w', 's'])
    &&& has_substring(str_to_lowercase(preview), seq!['u', 'p', 'g', 'r', 'a', 'd', 'e'])
}

/// Whether the request that begins with `preview` is a WebSocket upgrade
/// for the live feed (otherwise the page is served).
pub fn is_websocket_request(preview: &str) -> (ws: bool)
    ensures
        ws == requests_websocket(preview@),
        preview.is_ascii() ==> ws == (has_substring(preview@, seq!['/', 'w', 's'])
            && has_substring(ascii_lowercase(preview@), seq!['u', 'p', 'g', 'r', 'a', 'd', 'e'])),
{
    proof {
        reveal_strlit("/ws");
        reveal_strlit("upgrade");
        assert("/ws"@ =~= seq!['/', 'w', 's']);
        assert("upgrade"@ =~= seq!['u', 'p', 'g', 'r', 'a', 'd', 'e']);
    }
    if !str_contains(preview, "/ws") {
        return false;
    }
    let lower = to_lowercase(preview);
    str_contains(lower.as_str(), "upgrade")
}

} // verus!
