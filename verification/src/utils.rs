use vstd::prelude::*;
use vstd::utf8::*;
use std::time::{Duration, SystemTime, SystemTimeError};

verus! {

/// Bytes of the UTF-8 encoding of a text, as `str::len` counts them.
pub open spec fn utf8_len(text: Seq<char>) -> nat {
    encode_utf8(text).len()
}

/// What `shorten_string` shows for `text`: the text itself when it is at most
/// `max_len` bytes long, otherwise its first five bytes, `...`, and its last
/// five bytes.
pub open spec fn shortened(text: Seq<char>, max_len: nat) -> Seq<char> {
    let bytes = encode_utf8(text);
    if bytes.len() > max_len {
        decode_utf8(bytes.subrange(0, 5)) + seq!['.', '.', '.'] + decode_utf8(
            bytes.subrange(bytes.len() - 5, bytes.len() as int),
        )
    } else {
        text
    }
}

/// The inputs that `shorten_string` can cut: when the text is longer than
/// `max_len` bytes, it must have at least five bytes and character boundaries
/// five bytes from each end.
pub open spec fn can_shorten(text: Seq<char>, max_len: nat) -> bool {
    let bytes = encode_utf8(text);
    bytes.len() > max_len ==> {
        &&& bytes.len() >= 5
        &&& is_char_boundary(bytes, 5)
        &&& is_char_boundary(bytes, bytes.len() - 5)
    }
}

/// Shortens a long text (a public key, a signature) to its first and last five
/// bytes around `...`; a text of at most `max_len` bytes comes back unchanged.
pub fn shorten_string(text: String, max_len: usize) -> (res: String)
    requires
        utf8_len(text@) <= usize::MAX,
        can_shorten(text@, max_len as nat),
    ensures
        res@ == shortened(text@, max_len as nat),
{
    let len = text.as_str().len();
    proof {
        broadcast use encode_utf8_valid_utf8, encode_utf8_decode_utf8;
    }
    if len > max_len {
        let (prefix, _) = text.as_str().split_at(5);
        let (_, suffix) = text.as_str().split_at(len - 5);
        proof {
            broadcast use encode_utf8_decode_utf8;
            let bytes = encode_utf8(text@);
            assert(decode_utf8(encode_utf8(prefix@)) == prefix@);
            assert(decode_utf8(encode_utf8(suffix@)) == suffix@);
            reveal_strlit("...");
        }
        let mut res = String::new();
        res.append(prefix);
        res.append("...");
        res.append(suffix);
        res
    } else {
        text
    }
}


/// Shortening is idempotent: a shortened text can be shortened again, and
/// shortening it again gives it back unchanged (a long text's thirteen-byte
/// short form, like a text that was short enough already).
pub proof fn law_shorten_idempotent(text: Seq<char>, max_len: nat)
    requires
        can_shorten(text, max_len),
    ensures
        can_shorten(shortened(text, max_len), max_len),
        shortened(shortened(text, max_len), max_len) == shortened(text, max_len),
{
    let bytes = encode_utf8(text);
    if bytes.len() > max_len {
        broadcast use encode_utf8_valid_utf8, encode_utf8_decode_utf8, valid_utf8_concat;

        let n = bytes.len() as int;
        let p = bytes.subrange(0, 5);
        let s = bytes.subrange(n - 5, n);
        valid_utf8_split(bytes, 5);
        valid_utf8_split(bytes, n - 5);
        let dots = seq!['.', '.', '.'];
        let d = encode_utf8(dots);
        assert(is_ascii_chars(dots));
        is_ascii_chars_encode_utf8(dots);
        assert(d =~= seq![46u8, 46u8, 46u8]);
        let ds = d + s;
        let rb = p + ds;
        assert(valid_utf8(ds));
        assert(valid_utf8(rb));
        // The tail begins a character, so the joins fall on character boundaries.
        is_char_boundary_start_end_of_seq(s);
        is_char_boundary_iff_not_is_continuation_byte(s, 0);
        assert(ds[3] == s[0]);
        is_char_boundary_iff_not_is_continuation_byte(ds, 3);
        decode_utf8_split(ds, 3);
        assert(ds.subrange(0, 3) =~= d);
        assert(ds.subrange(3, 8) =~= s);
        assert(rb[5] == 46u8);
        is_char_boundary_iff_not_is_continuation_byte(rb, 5);
        decode_utf8_split(rb, 5);
        assert(rb.subrange(0, 5) =~= p);
        assert(rb.subrange(5, 13) =~= ds);
        let r = shortened(text, max_len);
        assert(decode_utf8(rb) =~= r);
        decode_utf8_encode_utf8(rb);
        assert(encode_utf8(r) == rb);
        assert(rb[8] == s[0]);
        is_char_boundary_iff_not_is_continuation_byte(rb, 8);
        assert(rb.subrange(8, 13) =~= s);
    }
}

#[verifier::external_type_specification]
#[verifier::external_body]
pub struct ExSystemTime(SystemTime);

#[verifier::external_type_specification]
#[verifier::external_body]
pub struct ExSystemTimeError(SystemTimeError);

/// `SystemTime::now`: the current reading of the system clock. It depends on
/// the moment of the call, so nothing is claimed of it.
#[verifier::external_body]
fn system_time_now() -> SystemTime {
    SystemTime::now()
}

/// `SystemTime::duration_since(UNIX_EPOCH)`: the time elapsed since the Unix
/// epoch, or an error when the clock reads earlier than the epoch. The value
/// is opaque here, so nothing is claimed of it.
#[verifier::external_body]
fn elapsed_since_unix_epoch(t: &SystemTime) -> Result<Duration, SystemTimeError> {
    t.duration_since(std::time::UNIX_EPOCH)
}

/// `Duration::as_secs`: the whole seconds of a duration. The duration is
/// opaque here, so nothing is claimed of the number.
#[verifier::external_body]
fn whole_seconds(d: &Duration) -> u64 {
    d.as_secs()
}

/// Seconds since the Unix epoch by the system clock, or `None` when the clock
/// reads earlier than the epoch.
pub fn get_unix_timestamp() -> (secs: Option<u64>) {
    let now = system_time_now();
    match elapsed_since_unix_epoch(&now) {
        Ok(d) => Some(whole_seconds(&d)),
        Err(_) => None,
    }
}

/// The text that chrono's `DateTime::<Utc>::from_timestamp(secs, 0)` followed
/// by `to_string` gives for a Unix timestamp, or `None` where chrono has no
/// date for it.
pub uninterp spec fn chrono_utc_text(secs: i64) -> Option<Seq<char>>;

/// `chrono::DateTime::<Utc>::from_timestamp(secs, 0)` and the `Display` of the
/// date it gives (such as `2024-05-16 19:31:25 UTC`). The text is named by
/// `chrono_utc_text`; chrono's calendar arithmetic is not restated here.
#[verifier::external_body]
fn utc_date_time_text(secs: i64) -> (res: Option<String>)
    ensures
        match res {
            Some(s) => chrono_utc_text(secs) == Some(s@),
            None => chrono_utc_text(secs) is None,
        },
{
    match chrono::DateTime::from_timestamp(secs, 0) {
        Some(dt) => Some(dt.to_string()),
        None => None,
    }
}

/// What the front end shows for a Unix timestamp: the UTC date and time, or
/// `Err` where there is no such date.
pub open spec fn timestamp_display(secs: i64) -> Seq<char> {
    match chrono_utc_text(secs) {
        Some(t) => t,
        None => seq!['E', 'r', 'r'],
    }
}

/// The date and time shown for a Unix timestamp (a proof's last hash, the
/// treasury's last reset, the log time of a transaction).
pub fn timestamp_text(secs: i64) -> (res: String)
    ensures
        res@ == timestamp_display(secs),
{
    match utc_date_time_text(secs) {
        Some(s) => s,
        None => {
            proof {
                reveal_strlit("Err");
            }
            String::from_str("Err")
        },
    }
}


/// The treasury's last reset as shown: its date and time, or nothing while
/// no reset is known (a time of 0).
pub fn last_reset_text(last_reset_at: i64) -> (res: Option<String>)
    ensures
        last_reset_at == 0 ==> res is None,
        last_reset_at != 0 ==> res is Some && res->0@ == timestamp_display(last_reset_at),
{
    if last_reset_at == 0 {
        None
    } else {
        Some(timestamp_text(last_reset_at))
    }
}


/// The Solscan page of a devnet transaction, which the explorer button opens.
pub fn explorer_tx_url(sig: &str) -> (url: String)
    ensures
        url@ == "https://solscan.io/tx/"@ + sig@ + "?cluster=devnet"@,
{
    let mut url = String::from_str("https://solscan.io/tx/");
    url.append(sig);
    url.append("?cluster=devnet");
    url
}

} // verus!
