use vstd::prelude::*;
use base64::Engine;

verus! {

/// What `base64::engine::general_purpose::STANDARD.encode` makes of some bytes.
pub uninterp spec fn base64_of(b: Seq<u8>) -> Seq<char>;

/// Relies on `base64::engine::general_purpose::STANDARD.encode`: standard
/// alphabet with padding; the text depends on the bytes alone. It panics only
/// when the encoded length overflows `usize`, which the bound rules out.
#[verifier::external_body]
fn base64_encode(b: &Vec<u8>) -> (r: String)
    requires
        b@.len() <= 1_000_000,
    ensures
        r@ == base64_of(b@),
        r@.len() == 4 * ((b@.len() + 2) / 3),
{
    base64::engine::general_purpose::STANDARD.encode(b)
}

/// Relies on `rand::Rng::gen_range` over `thread_rng()`: a value in the
/// inclusive range, which must not be empty (the call panics on an empty one).
#[verifier::external_body]
fn random_between(lo: i32, hi: i32) -> (r: i32)
    requires
        lo <= hi,
    ensures
        lo <= r <= hi,
{
    rand::Rng::gen_range(&mut rand::thread_rng(), lo..=hi)
}

/// Relies on `std::time::SystemTime::now` and `duration_since(UNIX_EPOCH)`:
/// the current Unix time in seconds, 0 when the clock is before the epoch.
#[verifier::external_body]
fn unix_now_secs() -> (r: i64)
{
    match std::time::SystemTime::now().duration_since(std::time::UNIX_EPOCH) {
        Ok(d) => d.as_secs() as i64,
        Err(_) => 0,
    }
}

/// Browser-behaviour counters encoded into the anti-bot `ctoken`.
#[derive(Clone, Debug)]
pub struct CTokenGenerator {
    pub touch_event: i32,
    pub isibility_change: i32,
    pub page_unload: i32,
    pub timer: i32,
    pub time_difference: i32,
    pub scroll_x: i32,
    pub scroll_y: i32,
    pub inner_width: i32,
    pub inner_height: i32,
    pub outer_width: i32,
    pub outer_height: i32,
    pub screen_x: i32,
    pub screen_y: i32,
    pub screen_width: i32,
    pub screen_height: i32,
    pub screen_avail_width: i32,
    pub ticket_collection_t: i64,
    pub time_offset: i64,
    pub stay_time: i32,
}

/// A one-byte field: positive values saturate at 255, others keep their low byte.
pub open spec fn byte_field(d: i32) -> u8 {
    let v: i32 = if d > 255 { 255 } else { d };
    (v & 0xff) as u8
}

/// A two-byte field, big-endian: positive values saturate at 65535, others
/// keep their low two bytes.
pub open spec fn word_field(d: i32) -> Seq<u8> {
    let v: i32 = if d > 65535 { 65535 } else { d };
    seq![((v >> 8) & 0xff) as u8, (v & 0xff) as u8]
}

/// Each byte followed by a zero byte: the little-endian UTF-16 form of the
/// text whose characters are those byte values.
pub open spec fn widened(b: Seq<u8>) -> Seq<u8> {
    Seq::new(2 * b.len(), |i: int| if i % 2 == 0 { b[i / 2] } else { 0u8 })
}

fn byte_of(d: i32) -> (r: u8)
    ensures
        r == byte_field(d),
{
    let v: i32 = if d > 255 { 255 } else { d };
    (v & 0xff) as u8
}

fn word_of(d: i32) -> (r: (u8, u8))
    ensures
        seq![r.0, r.1] == word_field(d),
{
    let v: i32 = if d > 65535 { 65535 } else { d };
    (((v >> 8) & 0xff) as u8, (v & 0xff) as u8)
}

impl CTokenGenerator {
    /// The sixteen bytes of the token, field by field.
    pub open spec fn layout(&self) -> Seq<u8> {
        seq![
            byte_field(self.touch_event),
            byte_field(self.scroll_x),
            byte_field(self.isibility_change),
            byte_field(self.scroll_y),
            byte_field(self.inner_width),
            byte_field(self.page_unload),
            byte_field(self.inner_height),
            byte_field(self.outer_width),
        ].add(word_field(self.timer)).add(word_field(self.time_difference)).add(seq![
            byte_field(self.outer_height),
            byte_field(self.screen_x),
            byte_field(self.screen_y),
            byte_field(self.screen_width),
        ])
    }

    pub open spec fn counters_zero(&self) -> bool {
        &&& self.touch_event == 0 && self.isibility_change == 0 && self.page_unload == 0
        &&& self.timer == 0 && self.time_difference == 0 && self.scroll_x == 0 && self.scroll_y == 0
        &&& self.inner_width == 0 && self.inner_height == 0 && self.outer_width == 0
        &&& self.outer_height == 0 && self.screen_x == 0 && self.screen_y == 0
        &&& self.screen_width == 0 && self.screen_height == 0 && self.screen_avail_width == 0
    }

    pub fn new(ticket_collection_t: i64, time_offset: i64, stay_time: i32) -> (r: CTokenGenerator)
        ensures
            r.counters_zero(),
            r.ticket_collection_t == ticket_collection_t,
            r.time_offset == time_offset,
            r.stay_time == stay_time,
    {
        CTokenGenerator {
            touch_event: 0,
            isibility_change: 0,
            page_unload: 0,
            timer: 0,
            time_difference: 0,
            scroll_x: 0,
            scroll_y: 0,
            inner_width: 0,
            inner_height: 0,
            outer_width: 0,
            outer_height: 0,
            screen_x: 0,
            screen_y: 0,
            screen_width: 0,
            screen_height: 0,
            screen_avail_width: 0,
            ticket_collection_t,
            time_offset,
            stay_time,
        }
    }

    /// The bytes that are base64-encoded into the token: the sixteen layout
    /// bytes, each followed by a zero byte.
    pub fn payload(&self) -> (r: Vec<u8>)
        ensures
            r@ == widened(self.layout()),
    {
        let (t0, t1) = word_of(self.timer);
        let (d0, d1) = word_of(self.time_difference);
        let buffer: Vec<u8> = vec![
            byte_of(self.touch_event),
            byte_of(self.scroll_x),
            byte_of(self.isibility_change),
            byte_of(self.scroll_y),
            byte_of(self.inner_width),
            byte_of(self.page_unload),
            byte_of(self.inner_height),
            byte_of(self.outer_width),
            t0,
            t1,
            d0,
            d1,
            byte_of(self.outer_height),
            byte_of(self.screen_x),
            byte_of(self.screen_y),
            byte_of(self.screen_width),
        ];
        assert(buffer@ =~= self.layout());
        let mut out: Vec<u8> = Vec::new();
        let mut i: usize = 0;
        while i < buffer.len()
            invariant
                i <= buffer@.len(),
                buffer@.len() == 16,
                out@ =~= widened(buffer@.take(i as int)),
            decreases buffer@.len() - i,
        {
            out.push(buffer[i]);
            out.push(0u8);
            assert(out@ =~= widened(buffer@.take(i + 1)));
            i = i + 1;
        }
        assert(buffer@.take(16) =~= buffer@);
        out
    }

    /// The token text: the payload in standard base64.
    pub fn encode(&self) -> (r: String)
        ensures
            r@ == base64_of(widened(self.layout())),
            r@.len() == 44,
    {
        let data = self.payload();
        self.to_binary(&data)
    }

    fn to_binary(&self, data: &Vec<u8>) -> (r: String)
        requires
            data@.len() <= 1_000_000,
        ensures
            r@ == base64_of(data@),
            r@.len() == 4 * ((data@.len() + 2) / 3),
    {
        base64_encode(data)
    }

    /// Sets the counters for the given stage from the page-visit figures: the
    /// time now, and the random screen height, available width and (before
    /// order creation) touch count.
    pub fn set_stage(&mut self, is_create_v2: bool, now_secs: i64, screen_height: i32, screen_avail_width: i32, touch_event: i32)
        ensures
            final(self).isibility_change == 2,
            final(self).inner_width == 255 && final(self).inner_height == 255,
            final(self).outer_width == 255 && final(self).outer_height == 255,
            final(self).screen_width == 255,
            final(self).screen_height == screen_height,
            final(self).screen_avail_width == screen_avail_width,
            final(self).scroll_x == old(self).scroll_x && final(self).scroll_y == old(self).scroll_y,
            final(self).screen_x == old(self).screen_x && final(self).screen_y == old(self).screen_y,
            final(self).ticket_collection_t == old(self).ticket_collection_t,
            final(self).time_offset == old(self).time_offset,
            final(self).stay_time == old(self).stay_time,
            is_create_v2 ==> final(self).touch_event == 255 && final(self).page_unload == 25
                && final(self).time_difference == (now_secs + old(self).time_offset - old(self).ticket_collection_t) as i32
                && final(self).timer == (final(self).time_difference + old(self).stay_time) as i32,
            !is_create_v2 ==> final(self).touch_event == touch_event && final(self).page_unload == old(self).page_unload
                && final(self).time_difference == 0 && final(self).timer == old(self).stay_time,
    {
        self.touch_event = 255;
        self.isibility_change = 2;
        self.inner_width = 255;
        self.inner_height = 255;
        self.outer_width = 255;
        self.outer_height = 255;
        self.screen_width = 255;
        self.screen_height = screen_height;
        self.screen_avail_width = screen_avail_width;
        if is_create_v2 {
            let diff: i128 = now_secs as i128 + self.time_offset as i128 - self.ticket_collection_t as i128;
            self.time_difference = #[verifier::truncate] (diff as i32);
            let timer: i64 = self.time_difference as i64 + self.stay_time as i64;
            self.timer = #[verifier::truncate] (timer as i32);
            self.page_unload = 25;
        } else {
            self.time_difference = 0;
            self.timer = self.stay_time;
            self.touch_event = touch_event;
        }
    }

    /// A fresh token for the prepare stage (`false`) or the order-creation
    /// stage (`true`), with random screen figures.
    pub fn generate_ctoken(&mut self, is_create_v2: bool) -> (r: String)
        ensures
            r@ == base64_of(widened(final(self).layout())),
            r@.len() == 44,
            1000 <= final(self).screen_height <= 3000,
            1 <= final(self).screen_avail_width <= 100,
            final(self).isibility_change == 2,
            final(self).inner_width == 255 && final(self).inner_height == 255,
            final(self).outer_width == 255 && final(self).outer_height == 255,
            final(self).screen_width == 255,
            final(self).scroll_x == old(self).scroll_x && final(self).scroll_y == old(self).scroll_y,
            final(self).screen_x == old(self).screen_x && final(self).screen_y == old(self).screen_y,
            final(self).ticket_collection_t == old(self).ticket_collection_t,
            final(self).time_offset == old(self).time_offset,
            final(self).stay_time == old(self).stay_time,
            is_create_v2 ==> final(self).touch_event == 255 && final(self).page_unload == 25
                && final(self).timer == (final(self).time_difference + old(self).stay_time) as i32,
            !is_create_v2 ==> 3 <= final(self).touch_event <= 10 && final(self).page_unload == old(self).page_unload
                && final(self).time_difference == 0 && final(self).timer == old(self).stay_time,
    {
        let screen_height = random_between(1000, 3000);
        let avail = random_between(1, 100);
        if is_create_v2 {
            let now = unix_now_secs();
            self.set_stage(true, now, screen_height, avail, 255);
        } else {
            let touch = random_between(3, 10);
            self.set_stage(false, 0, screen_height, avail, touch);
        }
        self.encode()
    }
}

} // verus!
