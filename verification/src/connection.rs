//! What a connection tells the host about its chats, as far as it is computed
//! here: the number under which the host knows a chat.

use vstd::prelude::*;

verus! {

/// The hash of a chat's name, read as a signed number of the same 32 bits.
pub open spec fn signed(hash: u32) -> int {
    if hash <= 0x7fff_ffff {
        hash as int
    } else {
        hash as int - 0x1_0000_0000
    }
}

/// The number under which the host knows a chat, from the hash of the chat's
/// name. A chat is joined and its messages are delivered under the same
/// number, since both take it from here.
pub fn chat_id(name_hash: u32) -> (r: i32)
    ensures
        r as int == signed(name_hash),
{
    if name_hash <= 0x7fff_ffff {
        name_hash as i32
    } else {
        let low: u32 = name_hash - 0x8000_0000;
        low as i32 + i32::MIN
    }
}

/// Two hashes give the same number only if they are the same hash.
pub proof fn lemma_chat_id_injective(a: u32, b: u32)
    requires
        signed(a) == signed(b),
    ensures
        a == b,
{
}

} // verus!
