use vstd::prelude::*;

verus! {

/// Cycles without a received frame after which the bus link counts as lost.
pub const CAN_TIMEOUT: u32 = 144;

/// Cycles that the free-running 32-bit cycle counter has counted from
/// `since` to `now`; the counter wraps.
pub open spec fn elapsed(since: u32, now: u32) -> u32 {
    if now >= since {
        (now - since) as u32
    } else {
        (now - since + 0x1_0000_0000) as u32
    }
}

/// Computes [`elapsed`].
pub fn cycles_since(since: u32, now: u32) -> (cycles: u32)
    ensures
        cycles == elapsed(since, now),
{
    if now >= since {
        now - since
    } else {
        (u32::MAX - since) + now + 1
    }
}

/// The link is alive: a frame has been received, and no more than
/// [`CAN_TIMEOUT`] cycles ago.
pub open spec fn link_ok(last_rx: Option<u32>, now: u32) -> bool {
    match last_rx {
        Some(instant) => elapsed(instant, now) <= CAN_TIMEOUT,
        None => false,
    }
}

/// Computes [`link_ok`].
pub fn is_link_ok(last_rx: Option<u32>, now: u32) -> (ok: bool)
    ensures
        ok == link_ok(last_rx, now),
        last_rx is None ==> !ok,
        last_rx matches Some(instant) ==> (ok <==> elapsed(instant, now) <= CAN_TIMEOUT),
{
    match last_rx {
        Some(instant) => cycles_since(instant, now) <= CAN_TIMEOUT,
        None => false,
    }
}

/// A frame received at `received` keeps the link alive at every instant up
/// to [`CAN_TIMEOUT`] cycles later, whatever the link was before.
pub proof fn lemma_link_resumes_after_receive(received: u32, now: u32)
    requires
        elapsed(received, now) <= CAN_TIMEOUT,
    ensures
        link_ok(Some(received), now),
        link_ok(Some(received), received),
{
}

/// Without a received frame, or more than [`CAN_TIMEOUT`] cycles after the
/// last one, the link is not alive.
pub proof fn lemma_stale_link_is_not_ok(last_rx: Option<u32>, now: u32)
    requires
        last_rx matches Some(instant) ==> elapsed(instant, now) > CAN_TIMEOUT,
    ensures
        !link_ok(last_rx, now),
{
}

} // verus!
