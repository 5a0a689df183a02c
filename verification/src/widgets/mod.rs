//! The decisions behind the transfer dialogs, cards and lists.
pub mod file_card;
pub mod receive_transfer;
pub mod share_request;
pub mod request_dialog;
pub mod share_request_dialog;
pub mod transfer_card;
pub mod recipient_card;

use crate::objects::data_transfer::DataTransferObject;
use crate::protocol::{state_or_initial, State};
use vstd::prelude::*;

verus! {

/// Whether a transfer card stays when the cards are cleared: its transfer
/// is moving files.
pub open spec fn is_moving(d: DataTransferObject) -> bool {
    let s = state_or_initial(d.channel_message.0.state);
    s == State::ReceivingFiles || s == State::SendingFiles
}

/// Clears the cards whose transfer is not moving files, keeping the others
/// in order; gives the ids of the cleared transfers, in order, for the
/// caller to forget.
pub fn clear_data_transfer_cards(model: &mut Vec<DataTransferObject>) -> (r: Vec<String>)
    ensures
        final(model)@ == old(model)@.filter(|d: DataTransferObject| is_moving(d)),
        r@.map_values(|s: String| s@) == old(model)@.filter(|d: DataTransferObject| !is_moving(d)).map_values(
            |d: DataTransferObject| d.channel_message.0.id@,
        ),
{
    let mut rest: Vec<DataTransferObject> = Vec::new();
    std::mem::swap(&mut rest, model);
    let ghost src = rest@;
    let n = rest.len();
    let ghost keep = |d: DataTransferObject| is_moving(d);
    let ghost drop = |d: DataTransferObject| !is_moving(d);
    let ghost id_of = |d: DataTransferObject| d.channel_message.0.id@;
    let mut removed: Vec<String> = Vec::new();
    let mut i: usize = 0;
    assert(src.skip(0) =~= src);
    assert(src.take(0) =~= Seq::<DataTransferObject>::empty());
    assert(removed@.map_values(|s: String| s@) =~= src.take(0).filter(drop).map_values(id_of));
    while rest.len() > 0
        invariant
            i + rest.len() == src.len(),
            src.len() == n,
            rest@ == src.skip(i as int),
            model@ == src.take(i as int).filter(keep),
            removed@.map_values(|s: String| s@) == src.take(i as int).filter(drop).map_values(id_of),
            keep == (|d: DataTransferObject| is_moving(d)),
            drop == (|d: DataTransferObject| !is_moving(d)),
            id_of == (|d: DataTransferObject| d.channel_message.0.id@),
        decreases rest.len(),
    {
        let item = rest.remove(0);
        proof {
            assert(item == src[i as int]);
            assert(src.take(i + 1).drop_last() =~= src.take(i as int));
            assert(src.skip(i + 1) =~= rest@);
            reveal_with_fuel(Seq::filter, 1);
        }
        let st = crate::protocol::state_or_initial_of(item.channel_message.0.state);
        if st == State::ReceivingFiles || st == State::SendingFiles {
            model.push(item);
        } else {
            let ghost before = removed@;
            removed.push(item.channel_message.0.id.clone());
            proof {
                assert(removed@.map_values(|s: String| s@) =~= before.map_values(|s: String| s@).push(item.channel_message.0.id@));
                assert(src.take(i + 1).filter(drop) == src.take(i as int).filter(drop).push(item));
                assert(src.take(i + 1).filter(drop).map_values(id_of) =~= src.take(i as int).filter(drop).map_values(id_of).push(id_of(item)));
            }
        }
        i = i + 1;
    }
    assert(src.take(n as int) =~= src);
    removed
}

} // verus!
