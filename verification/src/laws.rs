use vstd::prelude::*;
use crate::bitstream::channel_ref;
use crate::decoder::{DecoderModel, feed_all, feed_done, step_done, step_state};

verus! {

/// The state after the first `k` bytes is the state after the first `k - 1`
/// bytes stepped by byte `k - 1`.
proof fn lemma_feed_all_snoc(s: DecoderModel, bytes: Seq<u8>, k: int)
    requires
        1 <= k <= bytes.len(),
    ensures
        feed_all(s, bytes.take(k)) == step_state(feed_all(s, bytes.take(k - 1)), bytes[k - 1]),
{
    assert(bytes.take(k).drop_last() =~= bytes.take(k - 1));
    assert(bytes.take(k).last() == bytes[k - 1]);
}

/// Feeding a concatenation is feeding the two parts in turn.
proof fn lemma_feed_all_append(s: DecoderModel, a: Seq<u8>, b: Seq<u8>)
    ensures
        feed_all(s, a + b) == feed_all(feed_all(s, a), b),
    decreases b.len(),
{
    if b.len() == 0 {
        assert(a + b =~= a);
    } else {
        lemma_feed_all_append(s, a, b.drop_last());
        assert((a + b).drop_last() =~= a + b.drop_last());
        assert((a + b).last() == b.last());
    }
}

/// One step moves the cursor forward by at most one and never below zero.
proof fn lemma_cursor_bound(s: DecoderModel, bytes: Seq<u8>)
    requires
        s.bytei >= 0,
    ensures
        0 <= feed_all(s, bytes).bytei <= s.bytei + bytes.len(),
    decreases bytes.len(),
{
    if bytes.len() > 0 {
        lemma_cursor_bound(s, bytes.drop_last());
    }
}

/// While the decoder is idle, bytes other than the sync byte are absorbed:
/// they change nothing and never report a complete frame. This is what makes
/// a reset final until a fresh sync byte arrives, and what lets the decoder
/// resynchronize after garbage.
pub proof fn lemma_idle_absorbs_garbage(s: DecoderModel, bytes: Seq<u8>)
    requires
        s.bytei == 0,
        forall|k: int| 0 <= k < bytes.len() ==> bytes[k] != 0x0f,
    ensures
        feed_all(s, bytes) == s,
        forall|k: int| 0 <= k < bytes.len() ==> !feed_done(s, bytes, k),
    decreases bytes.len(),
{
    if bytes.len() > 0 {
        lemma_idle_absorbs_garbage(s, bytes.drop_last());
        assert(feed_all(s, bytes) == step_state(feed_all(s, bytes.drop_last()), bytes.last()));
    }
    assert forall|k: int| 0 <= k < bytes.len() implies !feed_done(s, bytes, k) by {
        let p = bytes.take(k);
        assert(forall|j: int| 0 <= j < p.len() ==> p[j] != 0x0f);
        lemma_idle_absorbs_garbage(s, p);
    }
}

/// Resynchronization: garbage fed while the decoder is idle is discarded, so
/// any byte sequence that follows it decodes exactly as if it had been fed
/// alone. This fails if the garbage itself contains a sync byte, which the
/// decoder cannot tell from a real start of frame.
pub proof fn lemma_resync(s: DecoderModel, garbage: Seq<u8>, rest: Seq<u8>)
    requires
        s.bytei == 0,
        forall|k: int| 0 <= k < garbage.len() ==> garbage[k] != 0x0f,
    ensures
        feed_all(s, garbage + rest) == feed_all(s, rest),
{
    lemma_feed_all_append(s, garbage, rest);
    lemma_idle_absorbs_garbage(s, garbage);
}

/// A frame cannot complete early: starting from an idle decoder, no feed
/// within the first 24 bytes ever reports a complete frame, whatever the
/// bytes are. Completion can come at the earliest from the 25th byte.
pub proof fn lemma_short_feed_never_done(s: DecoderModel, bytes: Seq<u8>)
    requires
        s.bytei == 0,
        bytes.len() <= 25,
    ensures
        forall|k: int| 0 <= k < bytes.len() && k < 24 ==> !feed_done(s, bytes, k),
{
    assert forall|k: int| 0 <= k < bytes.len() && k < 24 implies !feed_done(s, bytes, k) by {
        lemma_cursor_bound(s, bytes.take(k));
        assert(feed_all(s, bytes.take(k)).bytei <= k);
    }
}

/// Feeding bytes to a decoder inside a frame advances the cursor one byte at
/// a time, as long as the end of the frame is not passed.
proof fn lemma_mid_frame_advance(s: DecoderModel, bytes: Seq<u8>)
    requires
        1 <= s.bytei,
        s.bytei + bytes.len() <= 24,
    ensures
        feed_all(s, bytes).bytei == s.bytei + bytes.len(),
    decreases bytes.len(),
{
    if bytes.len() > 0 {
        lemma_mid_frame_advance(s, bytes.drop_last());
    }
}

/// A malformed end byte is reported but does not lose synchronization: after
/// the 24 leading bytes of a frame, a 25th byte other than zero makes that
/// feed report false, yet returns the cursor to zero, ready to search for
/// the next sync byte.
pub proof fn lemma_bad_end_byte(s: DecoderModel, bytes: Seq<u8>)
    requires
        s.bytei == 0,
        bytes.len() == 25,
        bytes[0] == 0x0f,
        bytes[24] != 0x00,
    ensures
        !feed_done(s, bytes, 24),
        feed_all(s, bytes).bytei == 0,
{
    lemma_feed_all_snoc(s, bytes, 1);
    let t1 = feed_all(s, bytes.take(1));
    assert(t1.bytei == 1);
    assert(bytes.take(24) =~= bytes.take(1) + bytes.subrange(1, 24));
    lemma_feed_all_append(s, bytes.take(1), bytes.subrange(1, 24));
    lemma_mid_frame_advance(t1, bytes.subrange(1, 24));
    assert(feed_all(s, bytes.take(24)).bytei == 24);
    lemma_feed_all_snoc(s, bytes, 25);
    assert(bytes.take(25) =~= bytes);
}

proof fn lemma_or_zero_u16()
    by (bit_vector)
    ensures
        forall|a: u16| #[trigger] (a | 0u16) == a,
{
}

/// The value of one channel after the 23 leading bytes of a frame.
#[verifier::rlimit(50)]
proof fn lemma_channel_value_0(s: DecoderModel, bytes: Seq<u8>)
    requires
        s.bytei == 0,
        bytes.len() == 25,
        bytes[0] == 0x0f,
    ensures
        feed_all(s, bytes.take(23)).frame.channels[0] == channel_ref(
            bytes.subrange(1, 23),
            0,
        ),
{
    let p = bytes.subrange(1, 23);
    let p0: u8 = p[0];
    let p1: u8 = p[1];
    let p2: u8 = p[2];
    let x0: u16 = (p0 as u16) << 0u16;
    let x1: u16 = (p1 as u16) << 8u16;
    assert(bytes.take(0).len() == 0);
    lemma_feed_all_snoc(s, bytes, 1);
    let t1 = feed_all(s, bytes.take(1));
    assert(t1 == step_state(s, bytes[0]));
    assert(t1.bytei == 1);
    assert(t1.frame.channels[0] == 0);
    lemma_feed_all_snoc(s, bytes, 2);
    let t2 = feed_all(s, bytes.take(2));
    assert(t2.bytei == 2);
    assert(t2.frame.channels[0] == (t1.frame.channels[0] | x0) & 0x7ff);
    lemma_feed_all_snoc(s, bytes, 3);
    let t3 = feed_all(s, bytes.take(3));
    assert(t3.bytei == 3);
    assert(t3.frame.channels[0] == (t2.frame.channels[0] | x1) & 0x7ff);
    lemma_feed_all_snoc(s, bytes, 4);
    let t4 = feed_all(s, bytes.take(4));
    assert(t4.bytei == 4);
    assert(t4.frame.channels[0] == t3.frame.channels[0]);
    lemma_feed_all_snoc(s, bytes, 5);
    let t5 = feed_all(s, bytes.take(5));
    assert(t5.bytei == 5);
    assert(t5.frame.channels[0] == t4.frame.channels[0]);
    lemma_feed_all_snoc(s, bytes, 6);
    let t6 = feed_all(s, bytes.take(6));
    assert(t6.bytei == 6);
    assert(t6.frame.channels[0] == t5.frame.channels[0]);
    lemma_feed_all_snoc(s, bytes, 7);
    let t7 = feed_all(s, bytes.take(7));
    assert(t7.bytei == 7);
    assert(t7.frame.channels[0] == t6.frame.channels[0]);
    lemma_feed_all_snoc(s, bytes, 8);
    let t8 = feed_all(s, bytes.take(8));
    assert(t8.bytei == 8);
    assert(t8.frame.channels[0] == t7.frame.channels[0]);
    lemma_feed_all_snoc(s, bytes, 9);
    let t9 = feed_all(s, bytes.take(9));
    assert(t9.bytei == 9);
    assert(t9.frame.channels[0] == t8.frame.channels[0]);
    lemma_feed_all_snoc(s, bytes, 10);
    let t10 = feed_all(s, bytes.take(10));
    assert(t10.bytei == 10);
    assert(t10.frame.channels[0] == t9.frame.channels[0]);
    lemma_feed_all_snoc(s, bytes, 11);
    let t11 = feed_all(s, bytes.take(11));
    assert(t11.bytei == 11);
    assert(t11.frame.channels[0] == t10.frame.channels[0]);
    lemma_feed_all_snoc(s, bytes, 12);
    let t12 = feed_all(s, bytes.take(12));
    assert(t12.bytei == 12);
    assert(t12.frame.channels[0] == t11.frame.channels[0]);
    lemma_feed_all_snoc(s, bytes, 13);
    let t13 = feed_all(s, bytes.take(13));
    assert(t13.bytei == 13);
    assert(t13.frame.channels[0] == t12.frame.channels[0]);
    lemma_feed_all_snoc(s, bytes, 14);
    let t14 = feed_all(s, bytes.take(14));
    assert(t14.bytei == 14);
    assert(t14.frame.channels[0] == t13.frame.channels[0]);
    lemma_feed_all_snoc(s, bytes, 15);
    let t15 = feed_all(s, bytes.take(15));
    assert(t15.bytei == 15);
    assert(t15.frame.channels[0] == t14.frame.channels[0]);
    lemma_feed_all_snoc(s, bytes, 16);
    let t16 = feed_all(s, bytes.take(16));
    assert(t16.bytei == 16);
    assert(t16.frame.channels[0] == t15.frame.channels[0]);
    lemma_feed_all_snoc(s, bytes, 17);
    let t17 = feed_all(s, bytes.take(17));
    assert(t17.bytei == 17);
    assert(t17.frame.channels[0] == t16.frame.channels[0]);
    lemma_feed_all_snoc(s, bytes, 18);
    let t18 = feed_all(s, bytes.take(18));
    assert(t18.bytei == 18);
    assert(t18.frame.channels[0] == t17.frame.channels[0]);
    lemma_feed_all_snoc(s, bytes, 19);
    let t19 = feed_all(s, bytes.take(19));
    assert(t19.bytei == 19);
    assert(t19.frame.channels[0] == t18.frame.channels[0]);
    lemma_feed_all_snoc(s, bytes, 20);
    let t20 = feed_all(s, bytes.take(20));
    assert(t20.bytei == 20);
    assert(t20.frame.channels[0] == t19.frame.channels[0]);
    lemma_feed_all_snoc(s, bytes, 21);
    let t21 = feed_all(s, bytes.take(21));
    assert(t21.bytei == 21);
    assert(t21.frame.channels[0] == t20.frame.channels[0]);
    lemma_feed_all_snoc(s, bytes, 22);
    let t22 = feed_all(s, bytes.take(22));
    assert(t22.bytei == 22);
    assert(t22.frame.channels[0] == t21.frame.channels[0]);
    let e21: u8 = bytes[22];
    assert((((e21 as u16) << 3u16) >> 11u16) == 0u16) by (bit_vector);
    lemma_feed_all_snoc(s, bytes, 23);
    let t23 = feed_all(s, bytes.take(23));
    assert(t23.bytei == 23);
    assert(t23.frame.channels[0] == t22.frame.channels[0]);
    let d: u16 = ((((0u16 | x0) & 0x7ff) | x1) & 0x7ff);
    let w: u16 = ((((p0 as u32) | ((p1 as u32) << 8u32) | ((p2 as u32) << 16u32)) >> 0u32) & 0x7ff) as u16;
    assert(t23.frame.channels[0] == d);
    assert(channel_ref(p, 0) == w);
    assert(d == w) by (bit_vector)
        requires
            d == ((((0u16 | x0) & 0x7ff) | x1) & 0x7ff),
            w == ((((p0 as u32) | ((p1 as u32) << 8u32) | ((p2 as u32) << 16u32)) >> 0u32) & 0x7ff) as u16,
            x0 == (p0 as u16) << 0u16,
            x1 == (p1 as u16) << 8u16,
    ;
}

/// The value of one channel after the 23 leading bytes of a frame.
#[verifier::rlimit(50)]
proof fn lemma_channel_value_1(s: DecoderModel, bytes: Seq<u8>)
    requires
        s.bytei == 0,
        bytes.len() == 25,
        bytes[0] == 0x0f,
    ensures
        feed_all(s, bytes.take(23)).frame.channels[1] == channel_ref(
            bytes.subrange(1, 23),
            1,
        ),
{
    lemma_or_zero_u16();
    let p = bytes.subrange(1, 23);
    let p0: u8 = p[0];
    let p1: u8 = p[1];
    let p2: u8 = p[2];
    let p3: u8 = p[3];
    let x0: u16 = (p0 as u16) << 0u16;
    let x1: u16 = (p1 as u16) << 8u16;
    let x2: u16 = (p2 as u16) << 5u16;
    let y0: u16 = x0 >> 11u16;
    let y1: u16 = x1 >> 11u16;
    assert(bytes.take(0).len() == 0);
    lemma_feed_all_snoc(s, bytes, 1);
    let t1 = feed_all(s, bytes.take(1));
    assert(t1 == step_state(s, bytes[0]));
    assert(t1.bytei == 1);
    assert(t1.frame.channels[1] == 0);
    lemma_feed_all_snoc(s, bytes, 2);
    let t2 = feed_all(s, bytes.take(2));
    assert(t2.bytei == 2);
    assert(t2.frame.channels[1] == t1.frame.channels[1] | y0);
    lemma_feed_all_snoc(s, bytes, 3);
    let t3 = feed_all(s, bytes.take(3));
    assert(t3.bytei == 3);
    assert(t3.frame.channels[1] == t2.frame.channels[1] | y1);
    lemma_feed_all_snoc(s, bytes, 4);
    let t4 = feed_all(s, bytes.take(4));
    assert(t4.bytei == 4);
    assert(t4.frame.channels[1] == (t3.frame.channels[1] | x2) & 0x7ff);
    lemma_feed_all_snoc(s, bytes, 5);
    let t5 = feed_all(s, bytes.take(5));
    assert(t5.bytei == 5);
    assert(t5.frame.channels[1] == t4.frame.channels[1]);
    lemma_feed_all_snoc(s, bytes, 6);
    let t6 = feed_all(s, bytes.take(6));
    assert(t6.bytei == 6);
    assert(t6.frame.channels[1] == t5.frame.channels[1]);
    lemma_feed_all_snoc(s, bytes, 7);
    let t7 = feed_all(s, bytes.take(7));
    assert(t7.bytei == 7);
    assert(t7.frame.channels[1] == t6.frame.channels[1]);
    lemma_feed_all_snoc(s, bytes, 8);
    let t8 = feed_all(s, bytes.take(8));
    assert(t8.bytei == 8);
    assert(t8.frame.channels[1] == t7.frame.channels[1]);
    lemma_feed_all_snoc(s, bytes, 9);
    let t9 = feed_all(s, bytes.take(9));
    assert(t9.bytei == 9);
    assert(t9.frame.channels[1] == t8.frame.channels[1]);
    lemma_feed_all_snoc(s, bytes, 10);
    let t10 = feed_all(s, bytes.take(10));
    assert(t10.bytei == 10);
    assert(t10.frame.channels[1] == t9.frame.channels[1]);
    lemma_feed_all_snoc(s, bytes, 11);
    let t11 = feed_all(s, bytes.take(11));
    assert(t11.bytei == 11);
    assert(t11.frame.channels[1] == t10.frame.channels[1]);
    lemma_feed_all_snoc(s, bytes, 12);
    let t12 = feed_all(s, bytes.take(12));
    assert(t12.bytei == 12);
    assert(t12.frame.channels[1] == t11.frame.channels[1]);
    lemma_feed_all_snoc(s, bytes, 13);
    let t13 = feed_all(s, bytes.take(13));
    assert(t13.bytei == 13);
    assert(t13.frame.channels[1] == t12.frame.channels[1]);
    lemma_feed_all_snoc(s, bytes, 14);
    let t14 = feed_all(s, bytes.take(14));
    assert(t14.bytei == 14);
    assert(t14.frame.channels[1] == t13.frame.channels[1]);
    lemma_feed_all_snoc(s, bytes, 15);
    let t15 = feed_all(s, bytes.take(15));
    assert(t15.bytei == 15);
    assert(t15.frame.channels[1] == t14.frame.channels[1]);
    lemma_feed_all_snoc(s, bytes, 16);
    let t16 = feed_all(s, bytes.take(16));
    assert(t16.bytei == 16);
    assert(t16.frame.channels[1] == t15.frame.channels[1]);
    lemma_feed_all_snoc(s, bytes, 17);
    let t17 = feed_all(s, bytes.take(17));
    assert(t17.bytei == 17);
    assert(t17.frame.channels[1] == t16.frame.channels[1]);
    lemma_feed_all_snoc(s, bytes, 18);
    let t18 = feed_all(s, bytes.take(18));
    assert(t18.bytei == 18);
    assert(t18.frame.channels[1] == t17.frame.channels[1]);
    lemma_feed_all_snoc(s, bytes, 19);
    let t19 = feed_all(s, bytes.take(19));
    assert(t19.bytei == 19);
    assert(t19.frame.channels[1] == t18.frame.channels[1]);
    lemma_feed_all_snoc(s, bytes, 20);
    let t20 = feed_all(s, bytes.take(20));
    assert(t20.bytei == 20);
    assert(t20.frame.channels[1] == t19.frame.channels[1]);
    lemma_feed_all_snoc(s, bytes, 21);
    let t21 = feed_all(s, bytes.take(21));
    assert(t21.bytei == 21);
    assert(t21.frame.channels[1] == t20.frame.channels[1]);
    lemma_feed_all_snoc(s, bytes, 22);
    let t22 = feed_all(s, bytes.take(22));
    assert(t22.bytei == 22);
    assert(t22.frame.channels[1] == t21.frame.channels[1]);
    let e21: u8 = bytes[22];
    assert((((e21 as u16) << 3u16) >> 11u16) == 0u16) by (bit_vector);
    lemma_feed_all_snoc(s, bytes, 23);
    let t23 = feed_all(s, bytes.take(23));
    assert(t23.bytei == 23);
    assert(t23.frame.channels[1] == t22.frame.channels[1]);
    let d: u16 = ((((0u16 | y0) | y1) | x2) & 0x7ff);
    let w: u16 = ((((p1 as u32) | ((p2 as u32) << 8u32) | ((p3 as u32) << 16u32)) >> 3u32) & 0x7ff) as u16;
    assert(t23.frame.channels[1] == d);
    assert(channel_ref(p, 1) == w);
    assert(d == w) by (bit_vector)
        requires
            d == ((((0u16 | y0) | y1) | x2) & 0x7ff),
            w == ((((p1 as u32) | ((p2 as u32) << 8u32) | ((p3 as u32) << 16u32)) >> 3u32) & 0x7ff) as u16,
            y0 == ((p0 as u16) << 0u16) >> 11u16,
            y1 == ((p1 as u16) << 8u16) >> 11u16,
            x2 == (p2 as u16) << 5u16,
    ;
}

/// The value of one channel after the 23 leading bytes of a frame.
#[verifier::rlimit(50)]
proof fn lemma_channel_value_2(s: DecoderModel, bytes: Seq<u8>)
    requires
        s.bytei == 0,
        bytes.len() == 25,
        bytes[0] == 0x0f,
    ensures
        feed_all(s, bytes.take(23)).frame.channels[2] == channel_ref(
            bytes.subrange(1, 23),
            2,
        ),
{
    lemma_or_zero_u16();
    let p = bytes.subrange(1, 23);
    let p2: u8 = p[2];
    let p3: u8 = p[3];
    let p4: u8 = p[4];
    let x2: u16 = (p2 as u16) << 5u16;
    let x3: u16 = (p3 as u16) << 2u16;
    let x4: u16 = (p4 as u16) << 10u16;
    let y2: u16 = x2 >> 11u16;
    assert(bytes.take(0).len() == 0);
    lemma_feed_all_snoc(s, bytes, 1);
    let t1 = feed_all(s, bytes.take(1));
    assert(t1 == step_state(s, bytes[0]));
    assert(t1.bytei == 1);
    assert(t1.frame.channels[2] == 0);
    lemma_feed_all_snoc(s, bytes, 2);
    let t2 = feed_all(s, bytes.take(2));
    assert(t2.bytei == 2);
    assert(t2.frame.channels[2] == t1.frame.channels[2]);
    lemma_feed_all_snoc(s, bytes, 3);
    let t3 = feed_all(s, bytes.take(3));
    assert(t3.bytei == 3);
    assert(t3.frame.channels[2] == t2.frame.channels[2]);
    lemma_feed_all_snoc(s, bytes, 4);
    let t4 = feed_all(s, bytes.take(4));
    assert(t4.bytei == 4);
    assert(t4.frame.channels[2] == t3.frame.channels[2] | y2);
    lemma_feed_all_snoc(s, bytes, 5);
    let t5 = feed_all(s, bytes.take(5));
    assert(t5.bytei == 5);
    assert(t5.frame.channels[2] == (t4.frame.channels[2] | x3) & 0x7ff);
    lemma_feed_all_snoc(s, bytes, 6);
    let t6 = feed_all(s, bytes.take(6));
    assert(t6.bytei == 6);
    assert(t6.frame.channels[2] == (t5.frame.channels[2] | x4) & 0x7ff);
    lemma_feed_all_snoc(s, bytes, 7);
    let t7 = feed_all(s, bytes.take(7));
    assert(t7.bytei == 7);
    assert(t7.frame.channels[2] == t6.frame.channels[2]);
    lemma_feed_all_snoc(s, bytes, 8);
    let t8 = feed_all(s, bytes.take(8));
    assert(t8.bytei == 8);
    assert(t8.frame.channels[2] == t7.frame.channels[2]);
    lemma_feed_all_snoc(s, bytes, 9);
    let t9 = feed_all(s, bytes.take(9));
    assert(t9.bytei == 9);
    assert(t9.frame.channels[2] == t8.frame.channels[2]);
    lemma_feed_all_snoc(s, bytes, 10);
    let t10 = feed_all(s, bytes.take(10));
    assert(t10.bytei == 10);
    assert(t10.frame.channels[2] == t9.frame.channels[2]);
    lemma_feed_all_snoc(s, bytes, 11);
    let t11 = feed_all(s, bytes.take(11));
    assert(t11.bytei == 11);
    assert(t11.frame.channels[2] == t10.frame.channels[2]);
    lemma_feed_all_snoc(s, bytes, 12);
    let t12 = feed_all(s, bytes.take(12));
    assert(t12.bytei == 12);
    assert(t12.frame.channels[2] == t11.frame.channels[2]);
    lemma_feed_all_snoc(s, bytes, 13);
    let t13 = feed_all(s, bytes.take(13));
    assert(t13.bytei == 13);
    assert(t13.frame.channels[2] == t12.frame.channels[2]);
    lemma_feed_all_snoc(s, bytes, 14);
    let t14 = feed_all(s, bytes.take(14));
    assert(t14.bytei == 14);
    assert(t14.frame.channels[2] == t13.frame.channels[2]);
    lemma_feed_all_snoc(s, bytes, 15);
    let t15 = feed_all(s, bytes.take(15));
    assert(t15.bytei == 15);
    assert(t15.frame.channels[2] == t14.frame.channels[2]);
    lemma_feed_all_snoc(s, bytes, 16);
    let t16 = feed_all(s, bytes.take(16));
    assert(t16.bytei == 16);
    assert(t16.frame.channels[2] == t15.frame.channels[2]);
    lemma_feed_all_snoc(s, bytes, 17);
    let t17 = feed_all(s, bytes.take(17));
    assert(t17.bytei == 17);
    assert(t17.frame.channels[2] == t16.frame.channels[2]);
    lemma_feed_all_snoc(s, bytes, 18);
    let t18 = feed_all(s, bytes.take(18));
    assert(t18.bytei == 18);
    assert(t18.frame.channels[2] == t17.frame.channels[2]);
    lemma_feed_all_snoc(s, bytes, 19);
    let t19 = feed_all(s, bytes.take(19));
    assert(t19.bytei == 19);
    assert(t19.frame.channels[2] == t18.frame.channels[2]);
    lemma_feed_all_snoc(s, bytes, 20);
    let t20 = feed_all(s, bytes.take(20));
    assert(t20.bytei == 20);
    assert(t20.frame.channels[2] == t19.frame.channels[2]);
    lemma_feed_all_snoc(s, bytes, 21);
    let t21 = feed_all(s, bytes.take(21));
    assert(t21.bytei == 21);
    assert(t21.frame.channels[2] == t20.frame.channels[2]);
    lemma_feed_all_snoc(s, bytes, 22);
    let t22 = feed_all(s, bytes.take(22));
    assert(t22.bytei == 22);
    assert(t22.frame.channels[2] == t21.frame.channels[2]);
    let e21: u8 = bytes[22];
    assert((((e21 as u16) << 3u16) >> 11u16) == 0u16) by (bit_vector);
    lemma_feed_all_snoc(s, bytes, 23);
    let t23 = feed_all(s, bytes.take(23));
    assert(t23.bytei == 23);
    assert(t23.frame.channels[2] == t22.frame.channels[2]);
    let d: u16 = (((((0u16 | y2) | x3) & 0x7ff) | x4) & 0x7ff);
    let w: u16 = ((((p2 as u32) | ((p3 as u32) << 8u32) | ((p4 as u32) << 16u32)) >> 6u32) & 0x7ff) as u16;
    assert(t23.frame.channels[2] == d);
    assert(channel_ref(p, 2) == w);
    assert(d == w) by (bit_vector)
        requires
            d == (((((0u16 | y2) | x3) & 0x7ff) | x4) & 0x7ff),
            w == ((((p2 as u32) | ((p3 as u32) << 8u32) | ((p4 as u32) << 16u32)) >> 6u32) & 0x7ff) as u16,
            y2 == ((p2 as u16) << 5u16) >> 11u16,
            x3 == (p3 as u16) << 2u16,
            x4 == (p4 as u16) << 10u16,
    ;
}

/// The value of one channel after the 23 leading bytes of a frame.
#[verifier::rlimit(50)]
proof fn lemma_channel_value_3(s: DecoderModel, bytes: Seq<u8>)
    requires
        s.bytei == 0,
        bytes.len() == 25,
        bytes[0] == 0x0f,
        bytes[5] < 64,
    ensures
        feed_all(s, bytes.take(23)).frame.channels[3] == channel_ref(
            bytes.subrange(1, 23),
            3,
        ),
{
    lemma_or_zero_u16();
    let p = bytes.subrange(1, 23);
    let p3: u8 = p[3];
    let p4: u8 = p[4];
    let p5: u8 = p[5];
    let p6: u8 = p[6];
    let x3: u16 = (p3 as u16) << 2u16;
    let x4: u16 = (p4 as u16) << 10u16;
    let x5: u16 = (p5 as u16) << 7u16;
    let y3: u16 = x3 >> 11u16;
    let y4: u16 = x4 >> 11u16;
    assert(bytes.take(0).len() == 0);
    lemma_feed_all_snoc(s, bytes, 1);
    let t1 = feed_all(s, bytes.take(1));
    assert(t1 == step_state(s, bytes[0]));
    assert(t1.bytei == 1);
    assert(t1.frame.channels[3] == 0);
    lemma_feed_all_snoc(s, bytes, 2);
    let t2 = feed_all(s, bytes.take(2));
    assert(t2.bytei == 2);
    assert(t2.frame.channels[3] == t1.frame.channels[3]);
    lemma_feed_all_snoc(s, bytes, 3);
    let t3 = feed_all(s, bytes.take(3));
    assert(t3.bytei == 3);
    assert(t3.frame.channels[3] == t2.frame.channels[3]);
    lemma_feed_all_snoc(s, bytes, 4);
    let t4 = feed_all(s, bytes.take(4));
    assert(t4.bytei == 4);
    assert(t4.frame.channels[3] == t3.frame.channels[3]);
    lemma_feed_all_snoc(s, bytes, 5);
    let t5 = feed_all(s, bytes.take(5));
    assert(t5.bytei == 5);
    assert(t5.frame.channels[3] == t4.frame.channels[3] | y3);
    lemma_feed_all_snoc(s, bytes, 6);
    let t6 = feed_all(s, bytes.take(6));
    assert(t6.bytei == 6);
    assert(t6.frame.channels[3] == t5.frame.channels[3] | y4);
    lemma_feed_all_snoc(s, bytes, 7);
    let t7 = feed_all(s, bytes.take(7));
    assert(t7.bytei == 7);
    assert(t7.frame.channels[3] == (t6.frame.channels[3] | x5) & 0x7ff);
    lemma_feed_all_snoc(s, bytes, 8);
    let t8 = feed_all(s, bytes.take(8));
    assert(t8.bytei == 8);
    assert(t8.frame.channels[3] == t7.frame.channels[3]);
    lemma_feed_all_snoc(s, bytes, 9);
    let t9 = feed_all(s, bytes.take(9));
    assert(t9.bytei == 9);
    assert(t9.frame.channels[3] == t8.frame.channels[3]);
    lemma_feed_all_snoc(s, bytes, 10);
    let t10 = feed_all(s, bytes.take(10));
    assert(t10.bytei == 10);
    assert(t10.frame.channels[3] == t9.frame.channels[3]);
    lemma_feed_all_snoc(s, bytes, 11);
    let t11 = feed_all(s, bytes.take(11));
    assert(t11.bytei == 11);
    assert(t11.frame.channels[3] == t10.frame.channels[3]);
    lemma_feed_all_snoc(s, bytes, 12);
    let t12 = feed_all(s, bytes.take(12));
    assert(t12.bytei == 12);
    assert(t12.frame.channels[3] == t11.frame.channels[3]);
    lemma_feed_all_snoc(s, bytes, 13);
    let t13 = feed_all(s, bytes.take(13));
    assert(t13.bytei == 13);
    assert(t13.frame.channels[3] == t12.frame.channels[3]);
    lemma_feed_all_snoc(s, bytes, 14);
    let t14 = feed_all(s, bytes.take(14));
    assert(t14.bytei == 14);
    assert(t14.frame.channels[3] == t13.frame.channels[3]);
    lemma_feed_all_snoc(s, bytes, 15);
    let t15 = feed_all(s, bytes.take(15));
    assert(t15.bytei == 15);
    assert(t15.frame.channels[3] == t14.frame.channels[3]);
    lemma_feed_all_snoc(s, bytes, 16);
    let t16 = feed_all(s, bytes.take(16));
    assert(t16.bytei == 16);
    assert(t16.frame.channels[3] == t15.frame.channels[3]);
    lemma_feed_all_snoc(s, bytes, 17);
    let t17 = feed_all(s, bytes.take(17));
    assert(t17.bytei == 17);
    assert(t17.frame.channels[3] == t16.frame.channels[3]);
    lemma_feed_all_snoc(s, bytes, 18);
    let t18 = feed_all(s, bytes.take(18));
    assert(t18.bytei == 18);
    assert(t18.frame.channels[3] == t17.frame.channels[3]);
    lemma_feed_all_snoc(s, bytes, 19);
    let t19 = feed_all(s, bytes.take(19));
    assert(t19.bytei == 19);
    assert(t19.frame.channels[3] == t18.frame.channels[3]);
    lemma_feed_all_snoc(s, bytes, 20);
    let t20 = feed_all(s, bytes.take(20));
    assert(t20.bytei == 20);
    assert(t20.frame.channels[3] == t19.frame.channels[3]);
    lemma_feed_all_snoc(s, bytes, 21);
    let t21 = feed_all(s, bytes.take(21));
    assert(t21.bytei == 21);
    assert(t21.frame.channels[3] == t20.frame.channels[3]);
    lemma_feed_all_snoc(s, bytes, 22);
    let t22 = feed_all(s, bytes.take(22));
    assert(t22.bytei == 22);
    assert(t22.frame.channels[3] == t21.frame.channels[3]);
    let e21: u8 = bytes[22];
    assert((((e21 as u16) << 3u16) >> 11u16) == 0u16) by (bit_vector);
    lemma_feed_all_snoc(s, bytes, 23);
    let t23 = feed_all(s, bytes.take(23));
    assert(t23.bytei == 23);
    assert(t23.frame.channels[3] == t22.frame.channels[3]);
    let d: u16 = ((((0u16 | y3) | y4) | x5) & 0x7ff);
    let w: u16 = ((((p4 as u32) | ((p5 as u32) << 8u32) | ((p6 as u32) << 16u32)) >> 1u32) & 0x7ff) as u16;
    assert(t23.frame.channels[3] == d);
    assert(channel_ref(p, 3) == w);
    assert(d == w) by (bit_vector)
        requires
            d == ((((0u16 | y3) | y4) | x5) & 0x7ff),
            w == ((((p4 as u32) | ((p5 as u32) << 8u32) | ((p6 as u32) << 16u32)) >> 1u32) & 0x7ff) as u16,
            y3 == ((p3 as u16) << 2u16) >> 11u16,
            y4 == ((p4 as u16) << 10u16) >> 11u16,
            x5 == (p5 as u16) << 7u16,
            p4 < 64,
    ;
}

/// The value of one channel after the 23 leading bytes of a frame.
#[verifier::rlimit(50)]
proof fn lemma_channel_value_4(s: DecoderModel, bytes: Seq<u8>)
    requires
        s.bytei == 0,
        bytes.len() == 25,
        bytes[0] == 0x0f,
    ensures
        feed_all(s, bytes.take(23)).frame.channels[4] == channel_ref(
            bytes.subrange(1, 23),
            4,
        ),
{
    lemma_or_zero_u16();
    let p = bytes.subrange(1, 23);
    let p5: u8 = p[5];
    let p6: u8 = p[6];
    let p7: u8 = p[7];
    let x5: u16 = (p5 as u16) << 7u16;
    let x6: u16 = (p6 as u16) << 4u16;
    let y5: u16 = x5 >> 11u16;
    assert(bytes.take(0).len() == 0);
    lemma_feed_all_snoc(s, bytes, 1);
    let t1 = feed_all(s, bytes.take(1));
    assert(t1 == step_state(s, bytes[0]));
    assert(t1.bytei == 1);
    assert(t1.frame.channels[4] == 0);
    lemma_feed_all_snoc(s, bytes, 2);
    let t2 = feed_all(s, bytes.take(2));
    assert(t2.bytei == 2);
    assert(t2.frame.channels[4] == t1.frame.channels[4]);
    lemma_feed_all_snoc(s, bytes, 3);
    let t3 = feed_all(s, bytes.take(3));
    assert(t3.bytei == 3);
    assert(t3.frame.channels[4] == t2.frame.channels[4]);
    lemma_feed_all_snoc(s, bytes, 4);
    let t4 = feed_all(s, bytes.take(4));
    assert(t4.bytei == 4);
    assert(t4.frame.channels[4] == t3.frame.channels[4]);
    lemma_feed_all_snoc(s, bytes, 5);
    let t5 = feed_all(s, bytes.take(5));
    assert(t5.bytei == 5);
    assert(t5.frame.channels[4] == t4.frame.channels[4]);
    lemma_feed_all_snoc(s, bytes, 6);
    let t6 = feed_all(s, bytes.take(6));
    assert(t6.bytei == 6);
    assert(t6.frame.channels[4] == t5.frame.channels[4]);
    lemma_feed_all_snoc(s, bytes, 7);
    let t7 = feed_all(s, bytes.take(7));
    assert(t7.bytei == 7);
    assert(t7.frame.channels[4] == t6.frame.channels[4] | y5);
    lemma_feed_all_snoc(s, bytes, 8);
    let t8 = feed_all(s, bytes.take(8));
    assert(t8.bytei == 8);
    assert(t8.frame.channels[4] == (t7.frame.channels[4] | x6) & 0x7ff);
    lemma_feed_all_snoc(s, bytes, 9);
    let t9 = feed_all(s, bytes.take(9));
    assert(t9.bytei == 9);
    assert(t9.frame.channels[4] == t8.frame.channels[4]);
    lemma_feed_all_snoc(s, bytes, 10);
    let t10 = feed_all(s, bytes.take(10));
    assert(t10.bytei == 10);
    assert(t10.frame.channels[4] == t9.frame.channels[4]);
    lemma_feed_all_snoc(s, bytes, 11);
    let t11 = feed_all(s, bytes.take(11));
    assert(t11.bytei == 11);
    assert(t11.frame.channels[4] == t10.frame.channels[4]);
    lemma_feed_all_snoc(s, bytes, 12);
    let t12 = feed_all(s, bytes.take(12));
    assert(t12.bytei == 12);
    assert(t12.frame.channels[4] == t11.frame.channels[4]);
    lemma_feed_all_snoc(s, bytes, 13);
    let t13 = feed_all(s, bytes.take(13));
    assert(t13.bytei == 13);
    assert(t13.frame.channels[4] == t12.frame.channels[4]);
    lemma_feed_all_snoc(s, bytes, 14);
    let t14 = feed_all(s, bytes.take(14));
    assert(t14.bytei == 14);
    assert(t14.frame.channels[4] == t13.frame.channels[4]);
    lemma_feed_all_snoc(s, bytes, 15);
    let t15 = feed_all(s, bytes.take(15));
    assert(t15.bytei == 15);
    assert(t15.frame.channels[4] == t14.frame.channels[4]);
    lemma_feed_all_snoc(s, bytes, 16);
    let t16 = feed_all(s, bytes.take(16));
    assert(t16.bytei == 16);
    assert(t16.frame.channels[4] == t15.frame.channels[4]);
    lemma_feed_all_snoc(s, bytes, 17);
    let t17 = feed_all(s, bytes.take(17));
    assert(t17.bytei == 17);
    assert(t17.frame.channels[4] == t16.frame.channels[4]);
    lemma_feed_all_snoc(s, bytes, 18);
    let t18 = feed_all(s, bytes.take(18));
    assert(t18.bytei == 18);
    assert(t18.frame.channels[4] == t17.frame.channels[4]);
    lemma_feed_all_snoc(s, bytes, 19);
    let t19 = feed_all(s, bytes.take(19));
    assert(t19.bytei == 19);
    assert(t19.frame.channels[4] == t18.frame.channels[4]);
    lemma_feed_all_snoc(s, bytes, 20);
    let t20 = feed_all(s, bytes.take(20));
    assert(t20.bytei == 20);
    assert(t20.frame.channels[4] == t19.frame.channels[4]);
    lemma_feed_all_snoc(s, bytes, 21);
    let t21 = feed_all(s, bytes.take(21));
    assert(t21.bytei == 21);
    assert(t21.frame.channels[4] == t20.frame.channels[4]);
    lemma_feed_all_snoc(s, bytes, 22);
    let t22 = feed_all(s, bytes.take(22));
    assert(t22.bytei == 22);
    assert(t22.frame.channels[4] == t21.frame.channels[4]);
    let e21: u8 = bytes[22];
    assert((((e21 as u16) << 3u16) >> 11u16) == 0u16) by (bit_vector);
    lemma_feed_all_snoc(s, bytes, 23);
    let t23 = feed_all(s, bytes.take(23));
    assert(t23.bytei == 23);
    assert(t23.frame.channels[4] == t22.frame.channels[4]);
    let d: u16 = (((0u16 | y5) | x6) & 0x7ff);
    let w: u16 = ((((p5 as u32) | ((p6 as u32) << 8u32) | ((p7 as u32) << 16u32)) >> 4u32) & 0x7ff) as u16;
    assert(t23.frame.channels[4] == d);
    assert(channel_ref(p, 4) == w);
    assert(d == w) by (bit_vector)
        requires
            d == (((0u16 | y5) | x6) & 0x7ff),
            w == ((((p5 as u32) | ((p6 as u32) << 8u32) | ((p7 as u32) << 16u32)) >> 4u32) & 0x7ff) as u16,
            y5 == ((p5 as u16) << 7u16) >> 11u16,
            x6 == (p6 as u16) << 4u16,
    ;
}

/// The value of one channel after the 23 leading bytes of a frame.
#[verifier::rlimit(50)]
proof fn lemma_channel_value_5(s: DecoderModel, bytes: Seq<u8>)
    requires
        s.bytei == 0,
        bytes.len() == 25,
        bytes[0] == 0x0f,
    ensures
        feed_all(s, bytes.take(23)).frame.channels[5] == channel_ref(
            bytes.subrange(1, 23),
            5,
        ),
{
    lemma_or_zero_u16();
    let p = bytes.subrange(1, 23);
    let p6: u8 = p[6];
    let p7: u8 = p[7];
    let p8: u8 = p[8];
    let x6: u16 = (p6 as u16) << 4u16;
    let x7: u16 = (p7 as u16) << 1u16;
    let x8: u16 = (p8 as u16) << 9u16;
    let y6: u16 = x6 >> 11u16;
    assert(bytes.take(0).len() == 0);
    lemma_feed_all_snoc(s, bytes, 1);
    let t1 = feed_all(s, bytes.take(1));
    assert(t1 == step_state(s, bytes[0]));
    assert(t1.bytei == 1);
    assert(t1.frame.channels[5] == 0);
    lemma_feed_all_snoc(s, bytes, 2);
    let t2 = feed_all(s, bytes.take(2));
    assert(t2.bytei == 2);
    assert(t2.frame.channels[5] == t1.frame.channels[5]);
    lemma_feed_all_snoc(s, bytes, 3);
    let t3 = feed_all(s, bytes.take(3));
    assert(t3.bytei == 3);
    assert(t3.frame.channels[5] == t2.frame.channels[5]);
    lemma_feed_all_snoc(s, bytes, 4);
    let t4 = feed_all(s, bytes.take(4));
    assert(t4.bytei == 4);
    assert(t4.frame.channels[5] == t3.frame.channels[5]);
    lemma_feed_all_snoc(s, bytes, 5);
    let t5 = feed_all(s, bytes.take(5));
    assert(t5.bytei == 5);
    assert(t5.frame.channels[5] == t4.frame.channels[5]);
    lemma_feed_all_snoc(s, bytes, 6);
    let t6 = feed_all(s, bytes.take(6));
    assert(t6.bytei == 6);
    assert(t6.frame.channels[5] == t5.frame.channels[5]);
    lemma_feed_all_snoc(s, bytes, 7);
    let t7 = feed_all(s, bytes.take(7));
    assert(t7.bytei == 7);
    assert(t7.frame.channels[5] == t6.frame.channels[5]);
    lemma_feed_all_snoc(s, bytes, 8);
    let t8 = feed_all(s, bytes.take(8));
    assert(t8.bytei == 8);
    assert(t8.frame.channels[5] == t7.frame.channels[5] | y6);
    lemma_feed_all_snoc(s, bytes, 9);
    let t9 = feed_all(s, bytes.take(9));
    assert(t9.bytei == 9);
    assert(t9.frame.channels[5] == (t8.frame.channels[5] | x7) & 0x7ff);
    lemma_feed_all_snoc(s, bytes, 10);
    let t10 = feed_all(s, bytes.take(10));
    assert(t10.bytei == 10);
    assert(t10.frame.channels[5] == (t9.frame.channels[5] | x8) & 0x7ff);
    lemma_feed_all_snoc(s, bytes, 11);
    let t11 = feed_all(s, bytes.take(11));
    assert(t11.bytei == 11);
    assert(t11.frame.channels[5] == t10.frame.channels[5]);
    lemma_feed_all_snoc(s, bytes, 12);
    let t12 = feed_all(s, bytes.take(12));
    assert(t12.bytei == 12);
    assert(t12.frame.channels[5] == t11.frame.channels[5]);
    lemma_feed_all_snoc(s, bytes, 13);
    let t13 = feed_all(s, bytes.take(13));
    assert(t13.bytei == 13);
    assert(t13.frame.channels[5] == t12.frame.channels[5]);
    lemma_feed_all_snoc(s, bytes, 14);
    let t14 = feed_all(s, bytes.take(14));
    assert(t14.bytei == 14);
    assert(t14.frame.channels[5] == t13.frame.channels[5]);
    lemma_feed_all_snoc(s, bytes, 15);
    let t15 = feed_all(s, bytes.take(15));
    assert(t15.bytei == 15);
    assert(t15.frame.channels[5] == t14.frame.channels[5]);
    lemma_feed_all_snoc(s, bytes, 16);
    let t16 = feed_all(s, bytes.take(16));
    assert(t16.bytei == 16);
    assert(t16.frame.channels[5] == t15.frame.channels[5]);
    lemma_feed_all_snoc(s, bytes, 17);
    let t17 = feed_all(s, bytes.take(17));
    assert(t17.bytei == 17);
    assert(t17.frame.channels[5] == t16.frame.channels[5]);
    lemma_feed_all_snoc(s, bytes, 18);
    let t18 = feed_all(s, bytes.take(18));
    assert(t18.bytei == 18);
    assert(t18.frame.channels[5] == t17.frame.channels[5]);
    lemma_feed_all_snoc(s, bytes, 19);
    let t19 = feed_all(s, bytes.take(19));
    assert(t19.bytei == 19);
    assert(t19.frame.channels[5] == t18.frame.channels[5]);
    lemma_feed_all_snoc(s, bytes, 20);
    let t20 = feed_all(s, bytes.take(20));
    assert(t20.bytei == 20);
    assert(t20.frame.channels[5] == t19.frame.channels[5]);
    lemma_feed_all_snoc(s, bytes, 21);
    let t21 = feed_all(s, bytes.take(21));
    assert(t21.bytei == 21);
    assert(t21.frame.channels[5] == t20.frame.channels[5]);
    lemma_feed_all_snoc(s, bytes, 22);
    let t22 = feed_all(s, bytes.take(22));
    assert(t22.bytei == 22);
    assert(t22.frame.channels[5] == t21.frame.channels[5]);
    let e21: u8 = bytes[22];
    assert((((e21 as u16) << 3u16) >> 11u16) == 0u16) by (bit_vector);
    lemma_feed_all_snoc(s, bytes, 23);
    let t23 = feed_all(s, bytes.take(23));
    assert(t23.bytei == 23);
    assert(t23.frame.channels[5] == t22.frame.channels[5]);
    let d: u16 = (((((0u16 | y6) | x7) & 0x7ff) | x8) & 0x7ff);
    let w: u16 = ((((p6 as u32) | ((p7 as u32) << 8u32) | ((p8 as u32) << 16u32)) >> 7u32) & 0x7ff) as u16;
    assert(t23.frame.channels[5] == d);
    assert(channel_ref(p, 5) == w);
    assert(d == w) by (bit_vector)
        requires
            d == (((((0u16 | y6) | x7) & 0x7ff) | x8) & 0x7ff),
            w == ((((p6 as u32) | ((p7 as u32) << 8u32) | ((p8 as u32) << 16u32)) >> 7u32) & 0x7ff) as u16,
            y6 == ((p6 as u16) << 4u16) >> 11u16,
            x7 == (p7 as u16) << 1u16,
            x8 == (p8 as u16) << 9u16,
    ;
}

/// The value of one channel after the 23 leading bytes of a frame.
#[verifier::rlimit(50)]
proof fn lemma_channel_value_6(s: DecoderModel, bytes: Seq<u8>)
    requires
        s.bytei == 0,
        bytes.len() == 25,
        bytes[0] == 0x0f,
        bytes[9] < 128,
    ensures
        feed_all(s, bytes.take(23)).frame.channels[6] == channel_ref(
            bytes.subrange(1, 23),
            6,
        ),
{
    lemma_or_zero_u16();
    let p = bytes.subrange(1, 23);
    let p7: u8 = p[7];
    let p8: u8 = p[8];
    let p9: u8 = p[9];
    let p10: u8 = p[10];
    let x7: u16 = (p7 as u16) << 1u16;
    let x8: u16 = (p8 as u16) << 9u16;
    let x9: u16 = (p9 as u16) << 6u16;
    let y7: u16 = x7 >> 11u16;
    let y8: u16 = x8 >> 11u16;
    assert(bytes.take(0).len() == 0);
    lemma_feed_all_snoc(s, bytes, 1);
    let t1 = feed_all(s, bytes.take(1));
    assert(t1 == step_state(s, bytes[0]));
    assert(t1.bytei == 1);
    assert(t1.frame.channels[6] == 0);
    lemma_feed_all_snoc(s, bytes, 2);
    let t2 = feed_all(s, bytes.take(2));
    assert(t2.bytei == 2);
    assert(t2.frame.channels[6] == t1.frame.channels[6]);
    lemma_feed_all_snoc(s, bytes, 3);
    let t3 = feed_all(s, bytes.take(3));
    assert(t3.bytei == 3);
    assert(t3.frame.channels[6] == t2.frame.channels[6]);
    lemma_feed_all_snoc(s, bytes, 4);
    let t4 = feed_all(s, bytes.take(4));
    assert(t4.bytei == 4);
    assert(t4.frame.channels[6] == t3.frame.channels[6]);
    lemma_feed_all_snoc(s, bytes, 5);
    let t5 = feed_all(s, bytes.take(5));
    assert(t5.bytei == 5);
    assert(t5.frame.channels[6] == t4.frame.channels[6]);
    lemma_feed_all_snoc(s, bytes, 6);
    let t6 = feed_all(s, bytes.take(6));
    assert(t6.bytei == 6);
    assert(t6.frame.channels[6] == t5.frame.channels[6]);
    lemma_feed_all_snoc(s, bytes, 7);
    let t7 = feed_all(s, bytes.take(7));
    assert(t7.bytei == 7);
    assert(t7.frame.channels[6] == t6.frame.channels[6]);
    lemma_feed_all_snoc(s, bytes, 8);
    let t8 = feed_all(s, bytes.take(8));
    assert(t8.bytei == 8);
    assert(t8.frame.channels[6] == t7.frame.channels[6]);
    lemma_feed_all_snoc(s, bytes, 9);
    let t9 = feed_all(s, bytes.take(9));
    assert(t9.bytei == 9);
    assert(t9.frame.channels[6] == t8.frame.channels[6] | y7);
    lemma_feed_all_snoc(s, bytes, 10);
    let t10 = feed_all(s, bytes.take(10));
    assert(t10.bytei == 10);
    assert(t10.frame.channels[6] == t9.frame.channels[6] | y8);
    lemma_feed_all_snoc(s, bytes, 11);
    let t11 = feed_all(s, bytes.take(11));
    assert(t11.bytei == 11);
    assert(t11.frame.channels[6] == (t10.frame.channels[6] | x9) & 0x7ff);
    lemma_feed_all_snoc(s, bytes, 12);
    let t12 = feed_all(s, bytes.take(12));
    assert(t12.bytei == 12);
    assert(t12.frame.channels[6] == t11.frame.channels[6]);
    lemma_feed_all_snoc(s, bytes, 13);
    let t13 = feed_all(s, bytes.take(13));
    assert(t13.bytei == 13);
    assert(t13.frame.channels[6] == t12.frame.channels[6]);
    lemma_feed_all_snoc(s, bytes, 14);
    let t14 = feed_all(s, bytes.take(14));
    assert(t14.bytei == 14);
    assert(t14.frame.channels[6] == t13.frame.channels[6]);
    lemma_feed_all_snoc(s, bytes, 15);
    let t15 = feed_all(s, bytes.take(15));
    assert(t15.bytei == 15);
    assert(t15.frame.channels[6] == t14.frame.channels[6]);
    lemma_feed_all_snoc(s, bytes, 16);
    let t16 = feed_all(s, bytes.take(16));
    assert(t16.bytei == 16);
    assert(t16.frame.channels[6] == t15.frame.channels[6]);
    lemma_feed_all_snoc(s, bytes, 17);
    let t17 = feed_all(s, bytes.take(17));
    assert(t17.bytei == 17);
    assert(t17.frame.channels[6] == t16.frame.channels[6]);
    lemma_feed_all_snoc(s, bytes, 18);
    let t18 = feed_all(s, bytes.take(18));
    assert(t18.bytei == 18);
    assert(t18.frame.channels[6] == t17.frame.channels[6]);
    lemma_feed_all_snoc(s, bytes, 19);
    let t19 = feed_all(s, bytes.take(19));
    assert(t19.bytei == 19);
    assert(t19.frame.channels[6] == t18.frame.channels[6]);
    lemma_feed_all_snoc(s, bytes, 20);
    let t20 = feed_all(s, bytes.take(20));
    assert(t20.bytei == 20);
    assert(t20.frame.channels[6] == t19.frame.channels[6]);
    lemma_feed_all_snoc(s, bytes, 21);
    let t21 = feed_all(s, bytes.take(21));
    assert(t21.bytei == 21);
    assert(t21.frame.channels[6] == t20.frame.channels[6]);
    lemma_feed_all_snoc(s, bytes, 22);
    let t22 = feed_all(s, bytes.take(22));
    assert(t22.bytei == 22);
    assert(t22.frame.channels[6] == t21.frame.channels[6]);
    let e21: u8 = bytes[22];
    assert((((e21 as u16) << 3u16) >> 11u16) == 0u16) by (bit_vector);
    lemma_feed_all_snoc(s, bytes, 23);
    let t23 = feed_all(s, bytes.take(23));
    assert(t23.bytei == 23);
    assert(t23.frame.channels[6] == t22.frame.channels[6]);
    let d: u16 = ((((0u16 | y7) | y8) | x9) & 0x7ff);
    let w: u16 = ((((p8 as u32) | ((p9 as u32) << 8u32) | ((p10 as u32) << 16u32)) >> 2u32) & 0x7ff) as u16;
    assert(t23.frame.channels[6] == d);
    assert(channel_ref(p, 6) == w);
    assert(d == w) by (bit_vector)
        requires
            d == ((((0u16 | y7) | y8) | x9) & 0x7ff),
            w == ((((p8 as u32) | ((p9 as u32) << 8u32) | ((p10 as u32) << 16u32)) >> 2u32) & 0x7ff) as u16,
            y7 == ((p7 as u16) << 1u16) >> 11u16,
            y8 == ((p8 as u16) << 9u16) >> 11u16,
            x9 == (p9 as u16) << 6u16,
            p8 < 128,
    ;
}

/// The value of one channel after the 23 leading bytes of a frame.
#[verifier::rlimit(50)]
proof fn lemma_channel_value_7(s: DecoderModel, bytes: Seq<u8>)
    requires
        s.bytei == 0,
        bytes.len() == 25,
        bytes[0] == 0x0f,
    ensures
        feed_all(s, bytes.take(23)).frame.channels[7] == channel_ref(
            bytes.subrange(1, 23),
            7,
        ),
{
    lemma_or_zero_u16();
    let p = bytes.subrange(1, 23);
    let p9: u8 = p[9];
    let p10: u8 = p[10];
    let p11: u8 = p[11];
    let x9: u16 = (p9 as u16) << 6u16;
    let x10: u16 = (p10 as u16) << 3u16;
    let y9: u16 = x9 >> 11u16;
    assert(bytes.take(0).len() == 0);
    lemma_feed_all_snoc(s, bytes, 1);
    let t1 = feed_all(s, bytes.take(1));
    assert(t1 == step_state(s, bytes[0]));
    assert(t1.bytei == 1);
    assert(t1.frame.channels[7] == 0);
    lemma_feed_all_snoc(s, bytes, 2);
    let t2 = feed_all(s, bytes.take(2));
    assert(t2.bytei == 2);
    assert(t2.frame.channels[7] == t1.frame.channels[7]);
    lemma_feed_all_snoc(s, bytes, 3);
    let t3 = feed_all(s, bytes.take(3));
    assert(t3.bytei == 3);
    assert(t3.frame.channels[7] == t2.frame.channels[7]);
    lemma_feed_all_snoc(s, bytes, 4);
    let t4 = feed_all(s, bytes.take(4));
    assert(t4.bytei == 4);
    assert(t4.frame.channels[7] == t3.frame.channels[7]);
    lemma_feed_all_snoc(s, bytes, 5);
    let t5 = feed_all(s, bytes.take(5));
    assert(t5.bytei == 5);
    assert(t5.frame.channels[7] == t4.frame.channels[7]);
    lemma_feed_all_snoc(s, bytes, 6);
    let t6 = feed_all(s, bytes.take(6));
    assert(t6.bytei == 6);
    assert(t6.frame.channels[7] == t5.frame.channels[7]);
    lemma_feed_all_snoc(s, bytes, 7);
    let t7 = feed_all(s, bytes.take(7));
    assert(t7.bytei == 7);
    assert(t7.frame.channels[7] == t6.frame.channels[7]);
    lemma_feed_all_snoc(s, bytes, 8);
    let t8 = feed_all(s, bytes.take(8));
    assert(t8.bytei == 8);
    assert(t8.frame.channels[7] == t7.frame.channels[7]);
    lemma_feed_all_snoc(s, bytes, 9);
    let t9 = feed_all(s, bytes.take(9));
    assert(t9.bytei == 9);
    assert(t9.frame.channels[7] == t8.frame.channels[7]);
    lemma_feed_all_snoc(s, bytes, 10);
    let t10 = feed_all(s, bytes.take(10));
    assert(t10.bytei == 10);
    assert(t10.frame.channels[7] == t9.frame.channels[7]);
    lemma_feed_all_snoc(s, bytes, 11);
    let t11 = feed_all(s, bytes.take(11));
    assert(t11.bytei == 11);
    assert(t11.frame.channels[7] == t10.frame.channels[7] | y9);
    lemma_feed_all_snoc(s, bytes, 12);
    let t12 = feed_all(s, bytes.take(12));
    assert(t12.bytei == 12);
    assert(t12.frame.channels[7] == (t11.frame.channels[7] | x10) & 0x7ff);
    lemma_feed_all_snoc(s, bytes, 13);
    let t13 = feed_all(s, bytes.take(13));
    assert(t13.bytei == 13);
    assert(t13.frame.channels[7] == t12.frame.channels[7]);
    lemma_feed_all_snoc(s, bytes, 14);
    let t14 = feed_all(s, bytes.take(14));
    assert(t14.bytei == 14);
    assert(t14.frame.channels[7] == t13.frame.channels[7]);
    lemma_feed_all_snoc(s, bytes, 15);
    let t15 = feed_all(s, bytes.take(15));
    assert(t15.bytei == 15);
    assert(t15.frame.channels[7] == t14.frame.channels[7]);
    lemma_feed_all_snoc(s, bytes, 16);
    let t16 = feed_all(s, bytes.take(16));
    assert(t16.bytei == 16);
    assert(t16.frame.channels[7] == t15.frame.channels[7]);
    lemma_feed_all_snoc(s, bytes, 17);
    let t17 = feed_all(s, bytes.take(17));
    assert(t17.bytei == 17);
    assert(t17.frame.channels[7] == t16.frame.channels[7]);
    lemma_feed_all_snoc(s, bytes, 18);
    let t18 = feed_all(s, bytes.take(18));
    assert(t18.bytei == 18);
    assert(t18.frame.channels[7] == t17.frame.channels[7]);
    lemma_feed_all_snoc(s, bytes, 19);
    let t19 = feed_all(s, bytes.take(19));
    assert(t19.bytei == 19);
    assert(t19.frame.channels[7] == t18.frame.channels[7]);
    lemma_feed_all_snoc(s, bytes, 20);
    let t20 = feed_all(s, bytes.take(20));
    assert(t20.bytei == 20);
    assert(t20.frame.channels[7] == t19.frame.channels[7]);
    lemma_feed_all_snoc(s, bytes, 21);
    let t21 = feed_all(s, bytes.take(21));
    assert(t21.bytei == 21);
    assert(t21.frame.channels[7] == t20.frame.channels[7]);
    lemma_feed_all_snoc(s, bytes, 22);
    let t22 = feed_all(s, bytes.take(22));
    assert(t22.bytei == 22);
    assert(t22.frame.channels[7] == t21.frame.channels[7]);
    let e21: u8 = bytes[22];
    assert((((e21 as u16) << 3u16) >> 11u16) == 0u16) by (bit_vector);
    lemma_feed_all_snoc(s, bytes, 23);
    let t23 = feed_all(s, bytes.take(23));
    assert(t23.bytei == 23);
    assert(t23.frame.channels[7] == t22.frame.channels[7]);
    let d: u16 = (((0u16 | y9) | x10) & 0x7ff);
    let w: u16 = ((((p9 as u32) | ((p10 as u32) << 8u32) | ((p11 as u32) << 16u32)) >> 5u32) & 0x7ff) as u16;
    assert(t23.frame.channels[7] == d);
    assert(channel_ref(p, 7) == w);
    assert(d == w) by (bit_vector)
        requires
            d == (((0u16 | y9) | x10) & 0x7ff),
            w == ((((p9 as u32) | ((p10 as u32) << 8u32) | ((p11 as u32) << 16u32)) >> 5u32) & 0x7ff) as u16,
            y9 == ((p9 as u16) << 6u16) >> 11u16,
            x10 == (p10 as u16) << 3u16,
    ;
}

/// The value of one channel after the 23 leading bytes of a frame.
#[verifier::rlimit(50)]
proof fn lemma_channel_value_8(s: DecoderModel, bytes: Seq<u8>)
    requires
        s.bytei == 0,
        bytes.len() == 25,
        bytes[0] == 0x0f,
    ensures
        feed_all(s, bytes.take(23)).frame.channels[8] == channel_ref(
            bytes.subrange(1, 23),
            8,
        ),
{
    lemma_or_zero_u16();
    let p = bytes.subrange(1, 23);
    let p10: u8 = p[10];
    let p11: u8 = p[11];
    let p12: u8 = p[12];
    let p13: u8 = p[13];
    let x10: u16 = (p10 as u16) << 3u16;
    let x11: u16 = (p11 as u16) << 0u16;
    let x12: u16 = (p12 as u16) << 8u16;
    let y10: u16 = x10 >> 11u16;
    assert(bytes.take(0).len() == 0);
    lemma_feed_all_snoc(s, bytes, 1);
    let t1 = feed_all(s, bytes.take(1));
    assert(t1 == step_state(s, bytes[0]));
    assert(t1.bytei == 1);
    assert(t1.frame.channels[8] == 0);
    lemma_feed_all_snoc(s, bytes, 2);
    let t2 = feed_all(s, bytes.take(2));
    assert(t2.bytei == 2);
    assert(t2.frame.channels[8] == t1.frame.channels[8]);
    lemma_feed_all_snoc(s, bytes, 3);
    let t3 = feed_all(s, bytes.take(3));
    assert(t3.bytei == 3);
    assert(t3.frame.channels[8] == t2.frame.channels[8]);
    lemma_feed_all_snoc(s, bytes, 4);
    let t4 = feed_all(s, bytes.take(4));
    assert(t4.bytei == 4);
    assert(t4.frame.channels[8] == t3.frame.channels[8]);
    lemma_feed_all_snoc(s, bytes, 5);
    let t5 = feed_all(s, bytes.take(5));
    assert(t5.bytei == 5);
    assert(t5.frame.channels[8] == t4.frame.channels[8]);
    lemma_feed_all_snoc(s, bytes, 6);
    let t6 = feed_all(s, bytes.take(6));
    assert(t6.bytei == 6);
    assert(t6.frame.channels[8] == t5.frame.channels[8]);
    lemma_feed_all_snoc(s, bytes, 7);
    let t7 = feed_all(s, bytes.take(7));
    assert(t7.bytei == 7);
    assert(t7.frame.channels[8] == t6.frame.channels[8]);
    lemma_feed_all_snoc(s, bytes, 8);
    let t8 = feed_all(s, bytes.take(8));
    assert(t8.bytei == 8);
    assert(t8.frame.channels[8] == t7.frame.channels[8]);
    lemma_feed_all_snoc(s, bytes, 9);
    let t9 = feed_all(s, bytes.take(9));
    assert(t9.bytei == 9);
    assert(t9.frame.channels[8] == t8.frame.channels[8]);
    lemma_feed_all_snoc(s, bytes, 10);
    let t10 = feed_all(s, bytes.take(10));
    assert(t10.bytei == 10);
    assert(t10.frame.channels[8] == t9.frame.channels[8]);
    lemma_feed_all_snoc(s, bytes, 11);
    let t11 = feed_all(s, bytes.take(11));
    assert(t11.bytei == 11);
    assert(t11.frame.channels[8] == t10.frame.channels[8]);
    lemma_feed_all_snoc(s, bytes, 12);
    let t12 = feed_all(s, bytes.take(12));
    assert(t12.bytei == 12);
    assert(t12.frame.channels[8] == t11.frame.channels[8] | y10);
    lemma_feed_all_snoc(s, bytes, 13);
    let t13 = feed_all(s, bytes.take(13));
    assert(t13.bytei == 13);
    assert(t13.frame.channels[8] == (t12.frame.channels[8] | x11) & 0x7ff);
    lemma_feed_all_snoc(s, bytes, 14);
    let t14 = feed_all(s, bytes.take(14));
    assert(t14.bytei == 14);
    assert(t14.frame.channels[8] == (t13.frame.channels[8] | x12) & 0x7ff);
    lemma_feed_all_snoc(s, bytes, 15);
    let t15 = feed_all(s, bytes.take(15));
    assert(t15.bytei == 15);
    assert(t15.frame.channels[8] == t14.frame.channels[8]);
    lemma_feed_all_snoc(s, bytes, 16);
    let t16 = feed_all(s, bytes.take(16));
    assert(t16.bytei == 16);
    assert(t16.frame.channels[8] == t15.frame.channels[8]);
    lemma_feed_all_snoc(s, bytes, 17);
    let t17 = feed_all(s, bytes.take(17));
    assert(t17.bytei == 17);
    assert(t17.frame.channels[8] == t16.frame.channels[8]);
    lemma_feed_all_snoc(s, bytes, 18);
    let t18 = feed_all(s, bytes.take(18));
    assert(t18.bytei == 18);
    assert(t18.frame.channels[8] == t17.frame.channels[8]);
    lemma_feed_all_snoc(s, bytes, 19);
    let t19 = feed_all(s, bytes.take(19));
    assert(t19.bytei == 19);
    assert(t19.frame.channels[8] == t18.frame.channels[8]);
    lemma_feed_all_snoc(s, bytes, 20);
    let t20 = feed_all(s, bytes.take(20));
    assert(t20.bytei == 20);
    assert(t20.frame.channels[8] == t19.frame.channels[8]);
    lemma_feed_all_snoc(s, bytes, 21);
    let t21 = feed_all(s, bytes.take(21));
    assert(t21.bytei == 21);
    assert(t21.frame.channels[8] == t20.frame.channels[8]);
    lemma_feed_all_snoc(s, bytes, 22);
    let t22 = feed_all(s, bytes.take(22));
    assert(t22.bytei == 22);
    assert(t22.frame.channels[8] == t21.frame.channels[8]);
    let e21: u8 = bytes[22];
    assert((((e21 as u16) << 3u16) >> 11u16) == 0u16) by (bit_vector);
    lemma_feed_all_snoc(s, bytes, 23);
    let t23 = feed_all(s, bytes.take(23));
    assert(t23.bytei == 23);
    assert(t23.frame.channels[8] == t22.frame.channels[8]);
    let d: u16 = (((((0u16 | y10) | x11) & 0x7ff) | x12) & 0x7ff);
    let w: u16 = ((((p11 as u32) | ((p12 as u32) << 8u32) | ((p13 as u32) << 16u32)) >> 0u32) & 0x7ff) as u16;
    assert(t23.frame.channels[8] == d);
    assert(channel_ref(p, 8) == w);
    assert(d == w) by (bit_vector)
        requires
            d == (((((0u16 | y10) | x11) & 0x7ff) | x12) & 0x7ff),
            w == ((((p11 as u32) | ((p12 as u32) << 8u32) | ((p13 as u32) << 16u32)) >> 0u32) & 0x7ff) as u16,
            y10 == ((p10 as u16) << 3u16) >> 11u16,
            x11 == (p11 as u16) << 0u16,
            x12 == (p12 as u16) << 8u16,
    ;
}

/// The value of one channel after the 23 leading bytes of a frame.
#[verifier::rlimit(50)]
proof fn lemma_channel_value_9(s: DecoderModel, bytes: Seq<u8>)
    requires
        s.bytei == 0,
        bytes.len() == 25,
        bytes[0] == 0x0f,
    ensures
        feed_all(s, bytes.take(23)).frame.channels[9] == channel_ref(
            bytes.subrange(1, 23),
            9,
        ),
{
    lemma_or_zero_u16();
    let p = bytes.subrange(1, 23);
    let p11: u8 = p[11];
    let p12: u8 = p[12];
    let p13: u8 = p[13];
    let p14: u8 = p[14];
    let x11: u16 = (p11 as u16) << 0u16;
    let x12: u16 = (p12 as u16) << 8u16;
    let x13: u16 = (p13 as u16) << 5u16;
    let y11: u16 = x11 >> 11u16;
    let y12: u16 = x12 >> 11u16;
    assert(bytes.take(0).len() == 0);
    lemma_feed_all_snoc(s, bytes, 1);
    let t1 = feed_all(s, bytes.take(1));
    assert(t1 == step_state(s, bytes[0]));
    assert(t1.bytei == 1);
    assert(t1.frame.channels[9] == 0);
    lemma_feed_all_snoc(s, bytes, 2);
    let t2 = feed_all(s, bytes.take(2));
    assert(t2.bytei == 2);
    assert(t2.frame.channels[9] == t1.frame.channels[9]);
    lemma_feed_all_snoc(s, bytes, 3);
    let t3 = feed_all(s, bytes.take(3));
    assert(t3.bytei == 3);
    assert(t3.frame.channels[9] == t2.frame.channels[9]);
    lemma_feed_all_snoc(s, bytes, 4);
    let t4 = feed_all(s, bytes.take(4));
    assert(t4.bytei == 4);
    assert(t4.frame.channels[9] == t3.frame.channels[9]);
    lemma_feed_all_snoc(s, bytes, 5);
    let t5 = feed_all(s, bytes.take(5));
    assert(t5.bytei == 5);
    assert(t5.frame.channels[9] == t4.frame.channels[9]);
    lemma_feed_all_snoc(s, bytes, 6);
    let t6 = feed_all(s, bytes.take(6));
    assert(t6.bytei == 6);
    assert(t6.frame.channels[9] == t5.frame.channels[9]);
    lemma_feed_all_snoc(s, bytes, 7);
    let t7 = feed_all(s, bytes.take(7));
    assert(t7.bytei == 7);
    assert(t7.frame.channels[9] == t6.frame.channels[9]);
    lemma_feed_all_snoc(s, bytes, 8);
    let t8 = feed_all(s, bytes.take(8));
    assert(t8.bytei == 8);
    assert(t8.frame.channels[9] == t7.frame.channels[9]);
    lemma_feed_all_snoc(s, bytes, 9);
    let t9 = feed_all(s, bytes.take(9));
    assert(t9.bytei == 9);
    assert(t9.frame.channels[9] == t8.frame.channels[9]);
    lemma_feed_all_snoc(s, bytes, 10);
    let t10 = feed_all(s, bytes.take(10));
    assert(t10.bytei == 10);
    assert(t10.frame.channels[9] == t9.frame.channels[9]);
    lemma_feed_all_snoc(s, bytes, 11);
    let t11 = feed_all(s, bytes.take(11));
    assert(t11.bytei == 11);
    assert(t11.frame.channels[9] == t10.frame.channels[9]);
    lemma_feed_all_snoc(s, bytes, 12);
    let t12 = feed_all(s, bytes.take(12));
    assert(t12.bytei == 12);
    assert(t12.frame.channels[9] == t11.frame.channels[9]);
    lemma_feed_all_snoc(s, bytes, 13);
    let t13 = feed_all(s, bytes.take(13));
    assert(t13.bytei == 13);
    assert(t13.frame.channels[9] == t12.frame.channels[9] | y11);
    lemma_feed_all_snoc(s, bytes, 14);
    let t14 = feed_all(s, bytes.take(14));
    assert(t14.bytei == 14);
    assert(t14.frame.channels[9] == t13.frame.channels[9] | y12);
    lemma_feed_all_snoc(s, bytes, 15);
    let t15 = feed_all(s, bytes.take(15));
    assert(t15.bytei == 15);
    assert(t15.frame.channels[9] == (t14.frame.channels[9] | x13) & 0x7ff);
    lemma_feed_all_snoc(s, bytes, 16);
    let t16 = feed_all(s, bytes.take(16));
    assert(t16.bytei == 16);
    assert(t16.frame.channels[9] == t15.frame.channels[9]);
    lemma_feed_all_snoc(s, bytes, 17);
    let t17 = feed_all(s, bytes.take(17));
    assert(t17.bytei == 17);
    assert(t17.frame.channels[9] == t16.frame.channels[9]);
    lemma_feed_all_snoc(s, bytes, 18);
    let t18 = feed_all(s, bytes.take(18));
    assert(t18.bytei == 18);
    assert(t18.frame.channels[9] == t17.frame.channels[9]);
    lemma_feed_all_snoc(s, bytes, 19);
    let t19 = feed_all(s, bytes.take(19));
    assert(t19.bytei == 19);
    assert(t19.frame.channels[9] == t18.frame.channels[9]);
    lemma_feed_all_snoc(s, bytes, 20);
    let t20 = feed_all(s, bytes.take(20));
    assert(t20.bytei == 20);
    assert(t20.frame.channels[9] == t19.frame.channels[9]);
    lemma_feed_all_snoc(s, bytes, 21);
    let t21 = feed_all(s, bytes.take(21));
    assert(t21.bytei == 21);
    assert(t21.frame.channels[9] == t20.frame.channels[9]);
    lemma_feed_all_snoc(s, bytes, 22);
    let t22 = feed_all(s, bytes.take(22));
    assert(t22.bytei == 22);
    assert(t22.frame.channels[9] == t21.frame.channels[9]);
    let e21: u8 = bytes[22];
    assert((((e21 as u16) << 3u16) >> 11u16) == 0u16) by (bit_vector);
    lemma_feed_all_snoc(s, bytes, 23);
    let t23 = feed_all(s, bytes.take(23));
    assert(t23.bytei == 23);
    assert(t23.frame.channels[9] == t22.frame.channels[9]);
    let d: u16 = ((((0u16 | y11) | y12) | x13) & 0x7ff);
    let w: u16 = ((((p12 as u32) | ((p13 as u32) << 8u32) | ((p14 as u32) << 16u32)) >> 3u32) & 0x7ff) as u16;
    assert(t23.frame.channels[9] == d);
    assert(channel_ref(p, 9) == w);
    assert(d == w) by (bit_vector)
        requires
            d == ((((0u16 | y11) | y12) | x13) & 0x7ff),
            w == ((((p12 as u32) | ((p13 as u32) << 8u32) | ((p14 as u32) << 16u32)) >> 3u32) & 0x7ff) as u16,
            y11 == ((p11 as u16) << 0u16) >> 11u16,
            y12 == ((p12 as u16) << 8u16) >> 11u16,
            x13 == (p13 as u16) << 5u16,
    ;
}

/// The value of one channel after the 23 leading bytes of a frame.
#[verifier::rlimit(50)]
proof fn lemma_channel_value_10(s: DecoderModel, bytes: Seq<u8>)
    requires
        s.bytei == 0,
        bytes.len() == 25,
        bytes[0] == 0x0f,
    ensures
        feed_all(s, bytes.take(23)).frame.channels[10] == channel_ref(
            bytes.subrange(1, 23),
            10,
        ),
{
    lemma_or_zero_u16();
    let p = bytes.subrange(1, 23);
    let p13: u8 = p[13];
    let p14: u8 = p[14];
    let p15: u8 = p[15];
    let x13: u16 = (p13 as u16) << 5u16;
    let x14: u16 = (p14 as u16) << 2u16;
    let x15: u16 = (p15 as u16) << 10u16;
    let y13: u16 = x13 >> 11u16;
    assert(bytes.take(0).len() == 0);
    lemma_feed_all_snoc(s, bytes, 1);
    let t1 = feed_all(s, bytes.take(1));
    assert(t1 == step_state(s, bytes[0]));
    assert(t1.bytei == 1);
    assert(t1.frame.channels[10] == 0);
    lemma_feed_all_snoc(s, bytes, 2);
    let t2 = feed_all(s, bytes.take(2));
    assert(t2.bytei == 2);
    assert(t2.frame.channels[10] == t1.frame.channels[10]);
    lemma_feed_all_snoc(s, bytes, 3);
    let t3 = feed_all(s, bytes.take(3));
    assert(t3.bytei == 3);
    assert(t3.frame.channels[10] == t2.frame.channels[10]);
    lemma_feed_all_snoc(s, bytes, 4);
    let t4 = feed_all(s, bytes.take(4));
    assert(t4.bytei == 4);
    assert(t4.frame.channels[10] == t3.frame.channels[10]);
    lemma_feed_all_snoc(s, bytes, 5);
    let t5 = feed_all(s, bytes.take(5));
    assert(t5.bytei == 5);
    assert(t5.frame.channels[10] == t4.frame.channels[10]);
    lemma_feed_all_snoc(s, bytes, 6);
    let t6 = feed_all(s, bytes.take(6));
    assert(t6.bytei == 6);
    assert(t6.frame.channels[10] == t5.frame.channels[10]);
    lemma_feed_all_snoc(s, bytes, 7);
    let t7 = feed_all(s, bytes.take(7));
    assert(t7.bytei == 7);
    assert(t7.frame.channels[10] == t6.frame.channels[10]);
    lemma_feed_all_snoc(s, bytes, 8);
    let t8 = feed_all(s, bytes.take(8));
    assert(t8.bytei == 8);
    assert(t8.frame.channels[10] == t7.frame.channels[10]);
    lemma_feed_all_snoc(s, bytes, 9);
    let t9 = feed_all(s, bytes.take(9));
    assert(t9.bytei == 9);
    assert(t9.frame.channels[10] == t8.frame.channels[10]);
    lemma_feed_all_snoc(s, bytes, 10);
    let t10 = feed_all(s, bytes.take(10));
    assert(t10.bytei == 10);
    assert(t10.frame.channels[10] == t9.frame.channels[10]);
    lemma_feed_all_snoc(s, bytes, 11);
    let t11 = feed_all(s, bytes.take(11));
    assert(t11.bytei == 11);
    assert(t11.frame.channels[10] == t10.frame.channels[10]);
    lemma_feed_all_snoc(s, bytes, 12);
    let t12 = feed_all(s, bytes.take(12));
    assert(t12.bytei == 12);
    assert(t12.frame.channels[10] == t11.frame.channels[10]);
    lemma_feed_all_snoc(s, bytes, 13);
    let t13 = feed_all(s, bytes.take(13));
    assert(t13.bytei == 13);
    assert(t13.frame.channels[10] == t12.frame.channels[10]);
    lemma_feed_all_snoc(s, bytes, 14);
    let t14 = feed_all(s, bytes.take(14));
    assert(t14.bytei == 14);
    assert(t14.frame.channels[10] == t13.frame.channels[10]);
    lemma_feed_all_snoc(s, bytes, 15);
    let t15 = feed_all(s, bytes.take(15));
    assert(t15.bytei == 15);
    assert(t15.frame.channels[10] == t14.frame.channels[10] | y13);
    lemma_feed_all_snoc(s, bytes, 16);
    let t16 = feed_all(s, bytes.take(16));
    assert(t16.bytei == 16);
    assert(t16.frame.channels[10] == (t15.frame.channels[10] | x14) & 0x7ff);
    lemma_feed_all_snoc(s, bytes, 17);
    let t17 = feed_all(s, bytes.take(17));
    assert(t17.bytei == 17);
    assert(t17.frame.channels[10] == (t16.frame.channels[10] | x15) & 0x7ff);
    lemma_feed_all_snoc(s, bytes, 18);
    let t18 = feed_all(s, bytes.take(18));
    assert(t18.bytei == 18);
    assert(t18.frame.channels[10] == t17.frame.channels[10]);
    lemma_feed_all_snoc(s, bytes, 19);
    let t19 = feed_all(s, bytes.take(19));
    assert(t19.bytei == 19);
    assert(t19.frame.channels[10] == t18.frame.channels[10]);
    lemma_feed_all_snoc(s, bytes, 20);
    let t20 = feed_all(s, bytes.take(20));
    assert(t20.bytei == 20);
    assert(t20.frame.channels[10] == t19.frame.channels[10]);
    lemma_feed_all_snoc(s, bytes, 21);
    let t21 = feed_all(s, bytes.take(21));
    assert(t21.bytei == 21);
    assert(t21.frame.channels[10] == t20.frame.channels[10]);
    lemma_feed_all_snoc(s, bytes, 22);
    let t22 = feed_all(s, bytes.take(22));
    assert(t22.bytei == 22);
    assert(t22.frame.channels[10] == t21.frame.channels[10]);
    let e21: u8 = bytes[22];
    assert((((e21 as u16) << 3u16) >> 11u16) == 0u16) by (bit_vector);
    lemma_feed_all_snoc(s, bytes, 23);
    let t23 = feed_all(s, bytes.take(23));
    assert(t23.bytei == 23);
    assert(t23.frame.channels[10] == t22.frame.channels[10]);
    let d: u16 = (((((0u16 | y13) | x14) & 0x7ff) | x15) & 0x7ff);
    let w: u16 = ((((p13 as u32) | ((p14 as u32) << 8u32) | ((p15 as u32) << 16u32)) >> 6u32) & 0x7ff) as u16;
    assert(t23.frame.channels[10] == d);
    assert(channel_ref(p, 10) == w);
    assert(d == w) by (bit_vector)
        requires
            d == (((((0u16 | y13) | x14) & 0x7ff) | x15) & 0x7ff),
            w == ((((p13 as u32) | ((p14 as u32) << 8u32) | ((p15 as u32) << 16u32)) >> 6u32) & 0x7ff) as u16,
            y13 == ((p13 as u16) << 5u16) >> 11u16,
            x14 == (p14 as u16) << 2u16,
            x15 == (p15 as u16) << 10u16,
    ;
}

/// The value of one channel after the 23 leading bytes of a frame.
#[verifier::rlimit(50)]
proof fn lemma_channel_value_11(s: DecoderModel, bytes: Seq<u8>)
    requires
        s.bytei == 0,
        bytes.len() == 25,
        bytes[0] == 0x0f,
        bytes[16] < 64,
    ensures
        feed_all(s, bytes.take(23)).frame.channels[11] == channel_ref(
            bytes.subrange(1, 23),
            11,
        ),
{
    lemma_or_zero_u16();
    let p = bytes.subrange(1, 23);
    let p14: u8 = p[14];
    let p15: u8 = p[15];
    let p16: u8 = p[16];
    let p17: u8 = p[17];
    let x14: u16 = (p14 as u16) << 2u16;
    let x15: u16 = (p15 as u16) << 10u16;
    let x16: u16 = (p16 as u16) << 7u16;
    let y14: u16 = x14 >> 11u16;
    let y15: u16 = x15 >> 11u16;
    assert(bytes.take(0).len() == 0);
    lemma_feed_all_snoc(s, bytes, 1);
    let t1 = feed_all(s, bytes.take(1));
    assert(t1 == step_state(s, bytes[0]));
    assert(t1.bytei == 1);
    assert(t1.frame.channels[11] == 0);
    lemma_feed_all_snoc(s, bytes, 2);
    let t2 = feed_all(s, bytes.take(2));
    assert(t2.bytei == 2);
    assert(t2.frame.channels[11] == t1.frame.channels[11]);
    lemma_feed_all_snoc(s, bytes, 3);
    let t3 = feed_all(s, bytes.take(3));
    assert(t3.bytei == 3);
    assert(t3.frame.channels[11] == t2.frame.channels[11]);
    lemma_feed_all_snoc(s, bytes, 4);
    let t4 = feed_all(s, bytes.take(4));
    assert(t4.bytei == 4);
    assert(t4.frame.channels[11] == t3.frame.channels[11]);
    lemma_feed_all_snoc(s, bytes, 5);
    let t5 = feed_all(s, bytes.take(5));
    assert(t5.bytei == 5);
    assert(t5.frame.channels[11] == t4.frame.channels[11]);
    lemma_feed_all_snoc(s, bytes, 6);
    let t6 = feed_all(s, bytes.take(6));
    assert(t6.bytei == 6);
    assert(t6.frame.channels[11] == t5.frame.channels[11]);
    lemma_feed_all_snoc(s, bytes, 7);
    let t7 = feed_all(s, bytes.take(7));
    assert(t7.bytei == 7);
    assert(t7.frame.channels[11] == t6.frame.channels[11]);
    lemma_feed_all_snoc(s, bytes, 8);
    let t8 = feed_all(s, bytes.take(8));
    assert(t8.bytei == 8);
    assert(t8.frame.channels[11] == t7.frame.channels[11]);
    lemma_feed_all_snoc(s, bytes, 9);
    let t9 = feed_all(s, bytes.take(9));
    assert(t9.bytei == 9);
    assert(t9.frame.channels[11] == t8.frame.channels[11]);
    lemma_feed_all_snoc(s, bytes, 10);
    let t10 = feed_all(s, bytes.take(10));
    assert(t10.bytei == 10);
    assert(t10.frame.channels[11] == t9.frame.channels[11]);
    lemma_feed_all_snoc(s, bytes, 11);
    let t11 = feed_all(s, bytes.take(11));
    assert(t11.bytei == 11);
    assert(t11.frame.channels[11] == t10.frame.channels[11]);
    lemma_feed_all_snoc(s, bytes, 12);
    let t12 = feed_all(s, bytes.take(12));
    assert(t12.bytei == 12);
    assert(t12.frame.channels[11] == t11.frame.channels[11]);
    lemma_feed_all_snoc(s, bytes, 13);
    let t13 = feed_all(s, bytes.take(13));
    assert(t13.bytei == 13);
    assert(t13.frame.channels[11] == t12.frame.channels[11]);
    lemma_feed_all_snoc(s, bytes, 14);
    let t14 = feed_all(s, bytes.take(14));
    assert(t14.bytei == 14);
    assert(t14.frame.channels[11] == t13.frame.channels[11]);
    lemma_feed_all_snoc(s, bytes, 15);
    let t15 = feed_all(s, bytes.take(15));
    assert(t15.bytei == 15);
    assert(t15.frame.channels[11] == t14.frame.channels[11]);
    lemma_feed_all_snoc(s, bytes, 16);
    let t16 = feed_all(s, bytes.take(16));
    assert(t16.bytei == 16);
    assert(t16.frame.channels[11] == t15.frame.channels[11] | y14);
    lemma_feed_all_snoc(s, bytes, 17);
    let t17 = feed_all(s, bytes.take(17));
    assert(t17.bytei == 17);
    assert(t17.frame.channels[11] == t16.frame.channels[11] | y15);
    lemma_feed_all_snoc(s, bytes, 18);
    let t18 = feed_all(s, bytes.take(18));
    assert(t18.bytei == 18);
    assert(t18.frame.channels[11] == (t17.frame.channels[11] | x16) & 0x7ff);
    lemma_feed_all_snoc(s, bytes, 19);
    let t19 = feed_all(s, bytes.take(19));
    assert(t19.bytei == 19);
    assert(t19.frame.channels[11] == t18.frame.channels[11]);
    lemma_feed_all_snoc(s, bytes, 20);
    let t20 = feed_all(s, bytes.take(20));
    assert(t20.bytei == 20);
    assert(t20.frame.channels[11] == t19.frame.channels[11]);
    lemma_feed_all_snoc(s, bytes, 21);
    let t21 = feed_all(s, bytes.take(21));
    assert(t21.bytei == 21);
    assert(t21.frame.channels[11] == t20.frame.channels[11]);
    lemma_feed_all_snoc(s, bytes, 22);
    let t22 = feed_all(s, bytes.take(22));
    assert(t22.bytei == 22);
    assert(t22.frame.channels[11] == t21.frame.channels[11]);
    let e21: u8 = bytes[22];
    assert((((e21 as u16) << 3u16) >> 11u16) == 0u16) by (bit_vector);
    lemma_feed_all_snoc(s, bytes, 23);
    let t23 = feed_all(s, bytes.take(23));
    assert(t23.bytei == 23);
    assert(t23.frame.channels[11] == t22.frame.channels[11]);
    let d: u16 = ((((0u16 | y14) | y15) | x16) & 0x7ff);
    let w: u16 = ((((p15 as u32) | ((p16 as u32) << 8u32) | ((p17 as u32) << 16u32)) >> 1u32) & 0x7ff) as u16;
    assert(t23.frame.channels[11] == d);
    assert(channel_ref(p, 11) == w);
    assert(d == w) by (bit_vector)
        requires
            d == ((((0u16 | y14) | y15) | x16) & 0x7ff),
            w == ((((p15 as u32) | ((p16 as u32) << 8u32) | ((p17 as u32) << 16u32)) >> 1u32) & 0x7ff) as u16,
            y14 == ((p14 as u16) << 2u16) >> 11u16,
            y15 == ((p15 as u16) << 10u16) >> 11u16,
            x16 == (p16 as u16) << 7u16,
            p15 < 64,
    ;
}

/// The value of one channel after the 23 leading bytes of a frame.
#[verifier::rlimit(50)]
proof fn lemma_channel_value_12(s: DecoderModel, bytes: Seq<u8>)
    requires
        s.bytei == 0,
        bytes.len() == 25,
        bytes[0] == 0x0f,
    ensures
        feed_all(s, bytes.take(23)).frame.channels[12] == channel_ref(
            bytes.subrange(1, 23),
            12,
        ),
{
    lemma_or_zero_u16();
    let p = bytes.subrange(1, 23);
    let p16: u8 = p[16];
    let p17: u8 = p[17];
    let p18: u8 = p[18];
    let x16: u16 = (p16 as u16) << 7u16;
    let x17: u16 = (p17 as u16) << 4u16;
    let y16: u16 = x16 >> 11u16;
    assert(bytes.take(0).len() == 0);
    lemma_feed_all_snoc(s, bytes, 1);
    let t1 = feed_all(s, bytes.take(1));
    assert(t1 == step_state(s, bytes[0]));
    assert(t1.bytei == 1);
    assert(t1.frame.channels[12] == 0);
    lemma_feed_all_snoc(s, bytes, 2);
    let t2 = feed_all(s, bytes.take(2));
    assert(t2.bytei == 2);
    assert(t2.frame.channels[12] == t1.frame.channels[12]);
    lemma_feed_all_snoc(s, bytes, 3);
    let t3 = feed_all(s, bytes.take(3));
    assert(t3.bytei == 3);
    assert(t3.frame.channels[12] == t2.frame.channels[12]);
    lemma_feed_all_snoc(s, bytes, 4);
    let t4 = feed_all(s, bytes.take(4));
    assert(t4.bytei == 4);
    assert(t4.frame.channels[12] == t3.frame.channels[12]);
    lemma_feed_all_snoc(s, bytes, 5);
    let t5 = feed_all(s, bytes.take(5));
    assert(t5.bytei == 5);
    assert(t5.frame.channels[12] == t4.frame.channels[12]);
    lemma_feed_all_snoc(s, bytes, 6);
    let t6 = feed_all(s, bytes.take(6));
    assert(t6.bytei == 6);
    assert(t6.frame.channels[12] == t5.frame.channels[12]);
    lemma_feed_all_snoc(s, bytes, 7);
    let t7 = feed_all(s, bytes.take(7));
    assert(t7.bytei == 7);
    assert(t7.frame.channels[12] == t6.frame.channels[12]);
    lemma_feed_all_snoc(s, bytes, 8);
    let t8 = feed_all(s, bytes.take(8));
    assert(t8.bytei == 8);
    assert(t8.frame.channels[12] == t7.frame.channels[12]);
    lemma_feed_all_snoc(s, bytes, 9);
    let t9 = feed_all(s, bytes.take(9));
    assert(t9.bytei == 9);
    assert(t9.frame.channels[12] == t8.frame.channels[12]);
    lemma_feed_all_snoc(s, bytes, 10);
    let t10 = feed_all(s, bytes.take(10));
    assert(t10.bytei == 10);
    assert(t10.frame.channels[12] == t9.frame.channels[12]);
    lemma_feed_all_snoc(s, bytes, 11);
    let t11 = feed_all(s, bytes.take(11));
    assert(t11.bytei == 11);
    assert(t11.frame.channels[12] == t10.frame.channels[12]);
    lemma_feed_all_snoc(s, bytes, 12);
    let t12 = feed_all(s, bytes.take(12));
    assert(t12.bytei == 12);
    assert(t12.frame.channels[12] == t11.frame.channels[12]);
    lemma_feed_all_snoc(s, bytes, 13);
    let t13 = feed_all(s, bytes.take(13));
    assert(t13.bytei == 13);
    assert(t13.frame.channels[12] == t12.frame.channels[12]);
    lemma_feed_all_snoc(s, bytes, 14);
    let t14 = feed_all(s, bytes.take(14));
    assert(t14.bytei == 14);
    assert(t14.frame.channels[12] == t13.frame.channels[12]);
    lemma_feed_all_snoc(s, bytes, 15);
    let t15 = feed_all(s, bytes.take(15));
    assert(t15.bytei == 15);
    assert(t15.frame.channels[12] == t14.frame.channels[12]);
    lemma_feed_all_snoc(s, bytes, 16);
    let t16 = feed_all(s, bytes.take(16));
    assert(t16.bytei == 16);
    assert(t16.frame.channels[12] == t15.frame.channels[12]);
    lemma_feed_all_snoc(s, bytes, 17);
    let t17 = feed_all(s, bytes.take(17));
    assert(t17.bytei == 17);
    assert(t17.frame.channels[12] == t16.frame.channels[12]);
    lemma_feed_all_snoc(s, bytes, 18);
    let t18 = feed_all(s, bytes.take(18));
    assert(t18.bytei == 18);
    assert(t18.frame.channels[12] == t17.frame.channels[12] | y16);
    lemma_feed_all_snoc(s, bytes, 19);
    let t19 = feed_all(s, bytes.take(19));
    assert(t19.bytei == 19);
    assert(t19.frame.channels[12] == (t18.frame.channels[12] | x17) & 0x7ff);
    lemma_feed_all_snoc(s, bytes, 20);
    let t20 = feed_all(s, bytes.take(20));
    assert(t20.bytei == 20);
    assert(t20.frame.channels[12] == t19.frame.channels[12]);
    lemma_feed_all_snoc(s, bytes, 21);
    let t21 = feed_all(s, bytes.take(21));
    assert(t21.bytei == 21);
    assert(t21.frame.channels[12] == t20.frame.channels[12]);
    lemma_feed_all_snoc(s, bytes, 22);
    let t22 = feed_all(s, bytes.take(22));
    assert(t22.bytei == 22);
    assert(t22.frame.channels[12] == t21.frame.channels[12]);
    let e21: u8 = bytes[22];
    assert((((e21 as u16) << 3u16) >> 11u16) == 0u16) by (bit_vector);
    lemma_feed_all_snoc(s, bytes, 23);
    let t23 = feed_all(s, bytes.take(23));
    assert(t23.bytei == 23);
    assert(t23.frame.channels[12] == t22.frame.channels[12]);
    let d: u16 = (((0u16 | y16) | x17) & 0x7ff);
    let w: u16 = ((((p16 as u32) | ((p17 as u32) << 8u32) | ((p18 as u32) << 16u32)) >> 4u32) & 0x7ff) as u16;
    assert(t23.frame.channels[12] == d);
    assert(channel_ref(p, 12) == w);
    assert(d == w) by (bit_vector)
        requires
            d == (((0u16 | y16) | x17) & 0x7ff),
            w == ((((p16 as u32) | ((p17 as u32) << 8u32) | ((p18 as u32) << 16u32)) >> 4u32) & 0x7ff) as u16,
            y16 == ((p16 as u16) << 7u16) >> 11u16,
            x17 == (p17 as u16) << 4u16,
    ;
}

/// The value of one channel after the 23 leading bytes of a frame.
#[verifier::rlimit(50)]
proof fn lemma_channel_value_13(s: DecoderModel, bytes: Seq<u8>)
    requires
        s.bytei == 0,
        bytes.len() == 25,
        bytes[0] == 0x0f,
    ensures
        feed_all(s, bytes.take(23)).frame.channels[13] == channel_ref(
            bytes.subrange(1, 23),
            13,
        ),
{
    lemma_or_zero_u16();
    let p = bytes.subrange(1, 23);
    let p17: u8 = p[17];
    let p18: u8 = p[18];
    let p19: u8 = p[19];
    let x17: u16 = (p17 as u16) << 4u16;
    let x18: u16 = (p18 as u16) << 1u16;
    let x19: u16 = (p19 as u16) << 9u16;
    let y17: u16 = x17 >> 11u16;
    assert(bytes.take(0).len() == 0);
    lemma_feed_all_snoc(s, bytes, 1);
    let t1 = feed_all(s, bytes.take(1));
    assert(t1 == step_state(s, bytes[0]));
    assert(t1.bytei == 1);
    assert(t1.frame.channels[13] == 0);
    lemma_feed_all_snoc(s, bytes, 2);
    let t2 = feed_all(s, bytes.take(2));
    assert(t2.bytei == 2);
    assert(t2.frame.channels[13] == t1.frame.channels[13]);
    lemma_feed_all_snoc(s, bytes, 3);
    let t3 = feed_all(s, bytes.take(3));
    assert(t3.bytei == 3);
    assert(t3.frame.channels[13] == t2.frame.channels[13]);
    lemma_feed_all_snoc(s, bytes, 4);
    let t4 = feed_all(s, bytes.take(4));
    assert(t4.bytei == 4);
    assert(t4.frame.channels[13] == t3.frame.channels[13]);
    lemma_feed_all_snoc(s, bytes, 5);
    let t5 = feed_all(s, bytes.take(5));
    assert(t5.bytei == 5);
    assert(t5.frame.channels[13] == t4.frame.channels[13]);
    lemma_feed_all_snoc(s, bytes, 6);
    let t6 = feed_all(s, bytes.take(6));
    assert(t6.bytei == 6);
    assert(t6.frame.channels[13] == t5.frame.channels[13]);
    lemma_feed_all_snoc(s, bytes, 7);
    let t7 = feed_all(s, bytes.take(7));
    assert(t7.bytei == 7);
    assert(t7.frame.channels[13] == t6.frame.channels[13]);
    lemma_feed_all_snoc(s, bytes, 8);
    let t8 = feed_all(s, bytes.take(8));
    assert(t8.bytei == 8);
    assert(t8.frame.channels[13] == t7.frame.channels[13]);
    lemma_feed_all_snoc(s, bytes, 9);
    let t9 = feed_all(s, bytes.take(9));
    assert(t9.bytei == 9);
    assert(t9.frame.channels[13] == t8.frame.channels[13]);
    lemma_feed_all_snoc(s, bytes, 10);
    let t10 = feed_all(s, bytes.take(10));
    assert(t10.bytei == 10);
    assert(t10.frame.channels[13] == t9.frame.channels[13]);
    lemma_feed_all_snoc(s, bytes, 11);
    let t11 = feed_all(s, bytes.take(11));
    assert(t11.bytei == 11);
    assert(t11.frame.channels[13] == t10.frame.channels[13]);
    lemma_feed_all_snoc(s, bytes, 12);
    let t12 = feed_all(s, bytes.take(12));
    assert(t12.bytei == 12);
    assert(t12.frame.channels[13] == t11.frame.channels[13]);
    lemma_feed_all_snoc(s, bytes, 13);
    let t13 = feed_all(s, bytes.take(13));
    assert(t13.bytei == 13);
    assert(t13.frame.channels[13] == t12.frame.channels[13]);
    lemma_feed_all_snoc(s, bytes, 14);
    let t14 = feed_all(s, bytes.take(14));
    assert(t14.bytei == 14);
    assert(t14.frame.channels[13] == t13.frame.channels[13]);
    lemma_feed_all_snoc(s, bytes, 15);
    let t15 = feed_all(s, bytes.take(15));
    assert(t15.bytei == 15);
    assert(t15.frame.channels[13] == t14.frame.channels[13]);
    lemma_feed_all_snoc(s, bytes, 16);
    let t16 = feed_all(s, bytes.take(16));
    assert(t16.bytei == 16);
    assert(t16.frame.channels[13] == t15.frame.channels[13]);
    lemma_feed_all_snoc(s, bytes, 17);
    let t17 = feed_all(s, bytes.take(17));
    assert(t17.bytei == 17);
    assert(t17.frame.channels[13] == t16.frame.channels[13]);
    lemma_feed_all_snoc(s, bytes, 18);
    let t18 = feed_all(s, bytes.take(18));
    assert(t18.bytei == 18);
    assert(t18.frame.channels[13] == t17.frame.channels[13]);
    lemma_feed_all_snoc(s, bytes, 19);
    let t19 = feed_all(s, bytes.take(19));
    assert(t19.bytei == 19);
    assert(t19.frame.channels[13] == t18.frame.channels[13] | y17);
    lemma_feed_all_snoc(s, bytes, 20);
    let t20 = feed_all(s, bytes.take(20));
    assert(t20.bytei == 20);
    assert(t20.frame.channels[13] == (t19.frame.channels[13] | x18) & 0x7ff);
    lemma_feed_all_snoc(s, bytes, 21);
    let t21 = feed_all(s, bytes.take(21));
    assert(t21.bytei == 21);
    assert(t21.frame.channels[13] == (t20.frame.channels[13] | x19) & 0x7ff);
    lemma_feed_all_snoc(s, bytes, 22);
    let t22 = feed_all(s, bytes.take(22));
    assert(t22.bytei == 22);
    assert(t22.frame.channels[13] == t21.frame.channels[13]);
    let e21: u8 = bytes[22];
    assert((((e21 as u16) << 3u16) >> 11u16) == 0u16) by (bit_vector);
    lemma_feed_all_snoc(s, bytes, 23);
    let t23 = feed_all(s, bytes.take(23));
    assert(t23.bytei == 23);
    assert(t23.frame.channels[13] == t22.frame.channels[13]);
    let d: u16 = (((((0u16 | y17) | x18) & 0x7ff) | x19) & 0x7ff);
    let w: u16 = ((((p17 as u32) | ((p18 as u32) << 8u32) | ((p19 as u32) << 16u32)) >> 7u32) & 0x7ff) as u16;
    assert(t23.frame.channels[13] == d);
    assert(channel_ref(p, 13) == w);
    assert(d == w) by (bit_vector)
        requires
            d == (((((0u16 | y17) | x18) & 0x7ff) | x19) & 0x7ff),
            w == ((((p17 as u32) | ((p18 as u32) << 8u32) | ((p19 as u32) << 16u32)) >> 7u32) & 0x7ff) as u16,
            y17 == ((p17 as u16) << 4u16) >> 11u16,
            x18 == (p18 as u16) << 1u16,
            x19 == (p19 as u16) << 9u16,
    ;
}

/// The value of one channel after the 23 leading bytes of a frame.
#[verifier::rlimit(50)]
proof fn lemma_channel_value_14(s: DecoderModel, bytes: Seq<u8>)
    requires
        s.bytei == 0,
        bytes.len() == 25,
        bytes[0] == 0x0f,
        bytes[20] < 128,
    ensures
        feed_all(s, bytes.take(23)).frame.channels[14] == channel_ref(
            bytes.subrange(1, 23),
            14,
        ),
{
    lemma_or_zero_u16();
    let p = bytes.subrange(1, 23);
    let p18: u8 = p[18];
    let p19: u8 = p[19];
    let p20: u8 = p[20];
    let p21: u8 = p[21];
    let x18: u16 = (p18 as u16) << 1u16;
    let x19: u16 = (p19 as u16) << 9u16;
    let x20: u16 = (p20 as u16) << 6u16;
    let y18: u16 = x18 >> 11u16;
    let y19: u16 = x19 >> 11u16;
    assert(bytes.take(0).len() == 0);
    lemma_feed_all_snoc(s, bytes, 1);
    let t1 = feed_all(s, bytes.take(1));
    assert(t1 == step_state(s, bytes[0]));
    assert(t1.bytei == 1);
    assert(t1.frame.channels[14] == 0);
    lemma_feed_all_snoc(s, bytes, 2);
    let t2 = feed_all(s, bytes.take(2));
    assert(t2.bytei == 2);
    assert(t2.frame.channels[14] == t1.frame.channels[14]);
    lemma_feed_all_snoc(s, bytes, 3);
    let t3 = feed_all(s, bytes.take(3));
    assert(t3.bytei == 3);
    assert(t3.frame.channels[14] == t2.frame.channels[14]);
    lemma_feed_all_snoc(s, bytes, 4);
    let t4 = feed_all(s, bytes.take(4));
    assert(t4.bytei == 4);
    assert(t4.frame.channels[14] == t3.frame.channels[14]);
    lemma_feed_all_snoc(s, bytes, 5);
    let t5 = feed_all(s, bytes.take(5));
    assert(t5.bytei == 5);
    assert(t5.frame.channels[14] == t4.frame.channels[14]);
    lemma_feed_all_snoc(s, bytes, 6);
    let t6 = feed_all(s, bytes.take(6));
    assert(t6.bytei == 6);
    assert(t6.frame.channels[14] == t5.frame.channels[14]);
    lemma_feed_all_snoc(s, bytes, 7);
    let t7 = feed_all(s, bytes.take(7));
    assert(t7.bytei == 7);
    assert(t7.frame.channels[14] == t6.frame.channels[14]);
    lemma_feed_all_snoc(s, bytes, 8);
    let t8 = feed_all(s, bytes.take(8));
    assert(t8.bytei == 8);
    assert(t8.frame.channels[14] == t7.frame.channels[14]);
    lemma_feed_all_snoc(s, bytes, 9);
    let t9 = feed_all(s, bytes.take(9));
    assert(t9.bytei == 9);
    assert(t9.frame.channels[14] == t8.frame.channels[14]);
    lemma_feed_all_snoc(s, bytes, 10);
    let t10 = feed_all(s, bytes.take(10));
    assert(t10.bytei == 10);
    assert(t10.frame.channels[14] == t9.frame.channels[14]);
    lemma_feed_all_snoc(s, bytes, 11);
    let t11 = feed_all(s, bytes.take(11));
    assert(t11.bytei == 11);
    assert(t11.frame.channels[14] == t10.frame.channels[14]);
    lemma_feed_all_snoc(s, bytes, 12);
    let t12 = feed_all(s, bytes.take(12));
    assert(t12.bytei == 12);
    assert(t12.frame.channels[14] == t11.frame.channels[14]);
    lemma_feed_all_snoc(s, bytes, 13);
    let t13 = feed_all(s, bytes.take(13));
    assert(t13.bytei == 13);
    assert(t13.frame.channels[14] == t12.frame.channels[14]);
    lemma_feed_all_snoc(s, bytes, 14);
    let t14 = feed_all(s, bytes.take(14));
    assert(t14.bytei == 14);
    assert(t14.frame.channels[14] == t13.frame.channels[14]);
    lemma_feed_all_snoc(s, bytes, 15);
    let t15 = feed_all(s, bytes.take(15));
    assert(t15.bytei == 15);
    assert(t15.frame.channels[14] == t14.frame.channels[14]);
    lemma_feed_all_snoc(s, bytes, 16);
    let t16 = feed_all(s, bytes.take(16));
    assert(t16.bytei == 16);
    assert(t16.frame.channels[14] == t15.frame.channels[14]);
    lemma_feed_all_snoc(s, bytes, 17);
    let t17 = feed_all(s, bytes.take(17));
    assert(t17.bytei == 17);
    assert(t17.frame.channels[14] == t16.frame.channels[14]);
    lemma_feed_all_snoc(s, bytes, 18);
    let t18 = feed_all(s, bytes.take(18));
    assert(t18.bytei == 18);
    assert(t18.frame.channels[14] == t17.frame.channels[14]);
    lemma_feed_all_snoc(s, bytes, 19);
    let t19 = feed_all(s, bytes.take(19));
    assert(t19.bytei == 19);
    assert(t19.frame.channels[14] == t18.frame.channels[14]);
    lemma_feed_all_snoc(s, bytes, 20);
    let t20 = feed_all(s, bytes.take(20));
    assert(t20.bytei == 20);
    assert(t20.frame.channels[14] == t19.frame.channels[14] | y18);
    lemma_feed_all_snoc(s, bytes, 21);
    let t21 = feed_all(s, bytes.take(21));
    assert(t21.bytei == 21);
    assert(t21.frame.channels[14] == t20.frame.channels[14] | y19);
    lemma_feed_all_snoc(s, bytes, 22);
    let t22 = feed_all(s, bytes.take(22));
    assert(t22.bytei == 22);
    assert(t22.frame.channels[14] == (t21.frame.channels[14] | x20) & 0x7ff);
    let e21: u8 = bytes[22];
    assert((((e21 as u16) << 3u16) >> 11u16) == 0u16) by (bit_vector);
    lemma_feed_all_snoc(s, bytes, 23);
    let t23 = feed_all(s, bytes.take(23));
    assert(t23.bytei == 23);
    assert(t23.frame.channels[14] == t22.frame.channels[14]);
    let d: u16 = ((((0u16 | y18) | y19) | x20) & 0x7ff);
    let w: u16 = ((((p19 as u32) | ((p20 as u32) << 8u32) | ((p21 as u32) << 16u32)) >> 2u32) & 0x7ff) as u16;
    assert(t23.frame.channels[14] == d);
    assert(channel_ref(p, 14) == w);
    assert(d == w) by (bit_vector)
        requires
            d == ((((0u16 | y18) | y19) | x20) & 0x7ff),
            w == ((((p19 as u32) | ((p20 as u32) << 8u32) | ((p21 as u32) << 16u32)) >> 2u32) & 0x7ff) as u16,
            y18 == ((p18 as u16) << 1u16) >> 11u16,
            y19 == ((p19 as u16) << 9u16) >> 11u16,
            x20 == (p20 as u16) << 6u16,
            p19 < 128,
    ;
}

/// The value of one channel after the 23 leading bytes of a frame.
#[verifier::rlimit(50)]
proof fn lemma_channel_value_15(s: DecoderModel, bytes: Seq<u8>)
    requires
        s.bytei == 0,
        bytes.len() == 25,
        bytes[0] == 0x0f,
    ensures
        feed_all(s, bytes.take(23)).frame.channels[15] == channel_ref(
            bytes.subrange(1, 23),
            15,
        ),
{
    lemma_or_zero_u16();
    let p = bytes.subrange(1, 23);
    let p20: u8 = p[20];
    let p21: u8 = p[21];
    let p22: u8 = 0;
    let x20: u16 = (p20 as u16) << 6u16;
    let x21: u16 = (p21 as u16) << 3u16;
    let y20: u16 = x20 >> 11u16;
    assert(bytes.take(0).len() == 0);
    lemma_feed_all_snoc(s, bytes, 1);
    let t1 = feed_all(s, bytes.take(1));
    assert(t1 == step_state(s, bytes[0]));
    assert(t1.bytei == 1);
    assert(t1.frame.channels[15] == 0);
    lemma_feed_all_snoc(s, bytes, 2);
    let t2 = feed_all(s, bytes.take(2));
    assert(t2.bytei == 2);
    assert(t2.frame.channels[15] == t1.frame.channels[15]);
    lemma_feed_all_snoc(s, bytes, 3);
    let t3 = feed_all(s, bytes.take(3));
    assert(t3.bytei == 3);
    assert(t3.frame.channels[15] == t2.frame.channels[15]);
    lemma_feed_all_snoc(s, bytes, 4);
    let t4 = feed_all(s, bytes.take(4));
    assert(t4.bytei == 4);
    assert(t4.frame.channels[15] == t3.frame.channels[15]);
    lemma_feed_all_snoc(s, bytes, 5);
    let t5 = feed_all(s, bytes.take(5));
    assert(t5.bytei == 5);
    assert(t5.frame.channels[15] == t4.frame.channels[15]);
    lemma_feed_all_snoc(s, bytes, 6);
    let t6 = feed_all(s, bytes.take(6));
    assert(t6.bytei == 6);
    assert(t6.frame.channels[15] == t5.frame.channels[15]);
    lemma_feed_all_snoc(s, bytes, 7);
    let t7 = feed_all(s, bytes.take(7));
    assert(t7.bytei == 7);
    assert(t7.frame.channels[15] == t6.frame.channels[15]);
    lemma_feed_all_snoc(s, bytes, 8);
    let t8 = feed_all(s, bytes.take(8));
    assert(t8.bytei == 8);
    assert(t8.frame.channels[15] == t7.frame.channels[15]);
    lemma_feed_all_snoc(s, bytes, 9);
    let t9 = feed_all(s, bytes.take(9));
    assert(t9.bytei == 9);
    assert(t9.frame.channels[15] == t8.frame.channels[15]);
    lemma_feed_all_snoc(s, bytes, 10);
    let t10 = feed_all(s, bytes.take(10));
    assert(t10.bytei == 10);
    assert(t10.frame.channels[15] == t9.frame.channels[15]);
    lemma_feed_all_snoc(s, bytes, 11);
    let t11 = feed_all(s, bytes.take(11));
    assert(t11.bytei == 11);
    assert(t11.frame.channels[15] == t10.frame.channels[15]);
    lemma_feed_all_snoc(s, bytes, 12);
    let t12 = feed_all(s, bytes.take(12));
    assert(t12.bytei == 12);
    assert(t12.frame.channels[15] == t11.frame.channels[15]);
    lemma_feed_all_snoc(s, bytes, 13);
    let t13 = feed_all(s, bytes.take(13));
    assert(t13.bytei == 13);
    assert(t13.frame.channels[15] == t12.frame.channels[15]);
    lemma_feed_all_snoc(s, bytes, 14);
    let t14 = feed_all(s, bytes.take(14));
    assert(t14.bytei == 14);
    assert(t14.frame.channels[15] == t13.frame.channels[15]);
    lemma_feed_all_snoc(s, bytes, 15);
    let t15 = feed_all(s, bytes.take(15));
    assert(t15.bytei == 15);
    assert(t15.frame.channels[15] == t14.frame.channels[15]);
    lemma_feed_all_snoc(s, bytes, 16);
    let t16 = feed_all(s, bytes.take(16));
    assert(t16.bytei == 16);
    assert(t16.frame.channels[15] == t15.frame.channels[15]);
    lemma_feed_all_snoc(s, bytes, 17);
    let t17 = feed_all(s, bytes.take(17));
    assert(t17.bytei == 17);
    assert(t17.frame.channels[15] == t16.frame.channels[15]);
    lemma_feed_all_snoc(s, bytes, 18);
    let t18 = feed_all(s, bytes.take(18));
    assert(t18.bytei == 18);
    assert(t18.frame.channels[15] == t17.frame.channels[15]);
    lemma_feed_all_snoc(s, bytes, 19);
    let t19 = feed_all(s, bytes.take(19));
    assert(t19.bytei == 19);
    assert(t19.frame.channels[15] == t18.frame.channels[15]);
    lemma_feed_all_snoc(s, bytes, 20);
    let t20 = feed_all(s, bytes.take(20));
    assert(t20.bytei == 20);
    assert(t20.frame.channels[15] == t19.frame.channels[15]);
    lemma_feed_all_snoc(s, bytes, 21);
    let t21 = feed_all(s, bytes.take(21));
    assert(t21.bytei == 21);
    assert(t21.frame.channels[15] == t20.frame.channels[15]);
    lemma_feed_all_snoc(s, bytes, 22);
    let t22 = feed_all(s, bytes.take(22));
    assert(t22.bytei == 22);
    assert(t22.frame.channels[15] == t21.frame.channels[15] | y20);
    let e21: u8 = bytes[22];
    assert((((e21 as u16) << 3u16) >> 11u16) == 0u16) by (bit_vector);
    lemma_feed_all_snoc(s, bytes, 23);
    let t23 = feed_all(s, bytes.take(23));
    assert(t23.bytei == 23);
    assert(t23.frame.channels[15] == (t22.frame.channels[15] | x21) & 0x7ff);
    let d: u16 = (((0u16 | y20) | x21) & 0x7ff);
    let w: u16 = ((((p20 as u32) | ((p21 as u32) << 8u32) | ((p22 as u32) << 16u32)) >> 5u32) & 0x7ff) as u16;
    assert(t23.frame.channels[15] == d);
    assert(channel_ref(p, 15) == w);
    assert(d == w) by (bit_vector)
        requires
            d == (((0u16 | y20) | x21) & 0x7ff),
            w == ((((p20 as u32) | ((p21 as u32) << 8u32) | ((p22 as u32) << 16u32)) >> 5u32) & 0x7ff) as u16,
            y20 == ((p20 as u16) << 6u16) >> 11u16,
            x21 == (p21 as u16) << 3u16,
    ;
}

/// Decoding a fully valid frame: fed byte by byte into an idle decoder, a
/// 25-byte frame — sync byte `0x0f`, 22 payload bytes, flag byte, zero end
/// byte — reports completion exactly at its end byte; every channel then
/// holds the value packed in the payload bitstream at its 11-bit offset, and
/// the four flags come from bits 0 to 3 of the flag byte.
///
/// Four payload bytes are constrained. The contribution of a payload byte is
/// shifted into a 16-bit working value, and for the bytes at payload offsets
/// 4 and 15 (shift 10) and 8 and 19 (shift 9) the top two or one bits fall
/// off that value, so the decoder drops them. A frame that sets those bits
/// decodes with them lost, and the channel equality below does not hold of
/// it; frames that keep them clear decode exactly.
pub proof fn lemma_valid_frame_decodes(s: DecoderModel, bytes: Seq<u8>)
    requires
        s.bytei == 0,
        bytes.len() == 25,
        bytes[0] == 0x0f,
        bytes[24] == 0x00,
        bytes[5] < 64,
        bytes[9] < 128,
        bytes[16] < 64,
        bytes[20] < 128,
    ensures
        feed_done(s, bytes, 24),
        forall|i: int|
            0 <= i < 16 ==> feed_all(s, bytes).frame.channels[i] == channel_ref(
                bytes.subrange(1, 23),
                i,
            ),
        feed_all(s, bytes).frame.channel17 == (bytes[23] & 1 != 0),
        feed_all(s, bytes).frame.channel18 == (bytes[23] & 2 != 0),
        feed_all(s, bytes).frame.frame_lost == (bytes[23] & 4 != 0),
        feed_all(s, bytes).frame.failsafe == (bytes[23] & 8 != 0),
        feed_all(s, bytes).bytei == 0,
{
    let p = bytes.subrange(1, 23);
    lemma_channel_value_0(s, bytes);
    lemma_channel_value_1(s, bytes);
    lemma_channel_value_2(s, bytes);
    lemma_channel_value_3(s, bytes);
    lemma_channel_value_4(s, bytes);
    lemma_channel_value_5(s, bytes);
    lemma_channel_value_6(s, bytes);
    lemma_channel_value_7(s, bytes);
    lemma_channel_value_8(s, bytes);
    lemma_channel_value_9(s, bytes);
    lemma_channel_value_10(s, bytes);
    lemma_channel_value_11(s, bytes);
    lemma_channel_value_12(s, bytes);
    lemma_channel_value_13(s, bytes);
    lemma_channel_value_14(s, bytes);
    lemma_channel_value_15(s, bytes);
    lemma_feed_all_snoc(s, bytes, 1);
    let t1 = feed_all(s, bytes.take(1));
    assert(t1.bytei == 1);
    assert(bytes.take(23) =~= bytes.take(1) + bytes.subrange(1, 23));
    lemma_feed_all_append(s, bytes.take(1), bytes.subrange(1, 23));
    lemma_mid_frame_advance(t1, bytes.subrange(1, 23));
    let t23 = feed_all(s, bytes.take(23));
    assert(t23.bytei == 23);
    lemma_feed_all_snoc(s, bytes, 24);
    let t24 = feed_all(s, bytes.take(24));
    assert(t24 == step_state(t23, bytes[23]));
    assert(t24.bytei == 24);
    assert(t24.frame.channels == t23.frame.channels);
    lemma_feed_all_snoc(s, bytes, 25);
    let t25 = feed_all(s, bytes.take(25));
    assert(bytes.take(25) =~= bytes);
    assert(feed_all(s, bytes) == t25);
    assert(t25 == step_state(t24, bytes[24]));
    assert(t25.bytei == 0);
    assert(t25.frame == t24.frame);
    assert(step_done(t24, bytes[24]));
    assert forall|i: int| 0 <= i < 16 implies t25.frame.channels[i] == channel_ref(p, i) by {
        assert(i == 0 || i == 1 || i == 2 || i == 3 || i == 4 || i == 5 || i == 6 || i == 7 || i
            == 8 || i == 9 || i == 10 || i == 11 || i == 12 || i == 13 || i == 14 || i == 15);
    }
}

} // verus!
