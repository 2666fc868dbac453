//! Decoding of the output that an `adb shell` command hands back.
//!
//! The device either answers with plain text (legacy shell) or with a
//! shell_v2 packet stream: each packet is one channel byte, a four byte
//! little-endian payload length and the payload.  Channel 1 carries stdout,
//! channel 2 stderr and channel 3 the exit code.
use vstd::prelude::*;
use vstd::utf8::*;

use crate::text::string_from_utf8;

verus! {

/// Channel byte of a shell_v2 stdout packet.
pub const SHELL_V2_STDOUT: u8 = 1;

/// Channel byte of a shell_v2 stderr packet.
pub const SHELL_V2_STDERR: u8 = 2;

/// Channel byte of a shell_v2 exit-code packet.
pub const SHELL_V2_EXIT: u8 = 3;

/// Length of a shell_v2 packet header (channel byte and length).
pub const SHELL_V2_HEADER_LEN: usize = 5;

/// The payload length stored little-endian in the four bytes after `start`.
pub open spec fn le_u32_at(raw: Seq<u8>, start: int) -> nat {
    (raw[start] as nat) + (raw[start + 1] as nat) * 256 + (raw[start + 2] as nat) * 65536 + (
    raw[start + 3] as nat) * 16777216
}

/// Reads the packet stream `raw` from its first byte to its end.
///
/// `None` when the bytes are not a sequence of whole packets on known
/// channels; otherwise the concatenated stdout payloads, the concatenated
/// stderr payloads, and whether any packet was seen.
pub open spec fn shell_v2_packets(raw: Seq<u8>) -> Option<(Seq<u8>, Seq<u8>, bool)>
    decreases raw.len(),
{
    if raw.len() == 0 {
        Some((Seq::empty(), Seq::empty(), false))
    } else if raw.len() < 5 {
        None
    } else {
        let len = le_u32_at(raw, 1) as int;
        if 5 + len > raw.len() {
            None
        } else {
            let payload = raw.subrange(5, 5 + len);
            let channel = raw[0];
            if channel != SHELL_V2_STDOUT && channel != SHELL_V2_STDERR && channel != SHELL_V2_EXIT {
                None
            } else {
                match shell_v2_packets(raw.skip(5 + len)) {
                    None => None,
                    Some((out, err, _)) => {
                        if channel == SHELL_V2_STDOUT {
                            Some((payload + out, err, true))
                        } else if channel == SHELL_V2_STDERR {
                            Some((out, payload + err, true))
                        } else {
                            Some((out, err, true))
                        }
                    },
                }
            }
        }
    }
}

/// The text a shell_v2 stream stands for: stdout, then stderr on a line of
/// its own when stdout does not already end with a newline.
pub open spec fn merge_stdout_stderr(out: Seq<u8>, err: Seq<u8>) -> Seq<u8> {
    if err.len() == 0 {
        out
    } else if out.len() != 0 && out.last() != 10u8 {
        out.push(10u8) + err
    } else {
        out + err
    }
}

/// What `try_decode_shell_v2` gives back for `raw`.
pub open spec fn spec_try_decode_shell_v2(raw: Seq<u8>) -> Option<Seq<u8>> {
    if raw.len() < 5 {
        None
    } else {
        match shell_v2_packets(raw) {
            Some((out, err, true)) => Some(merge_stdout_stderr(out, err)),
            _ => None,
        }
    }
}

/// The bytes whose UTF-8 decoding `decode_shell_output` hands back.
pub open spec fn shell_output_bytes(raw: Seq<u8>) -> Seq<u8> {
    match spec_try_decode_shell_v2(raw) {
        Some(decoded) => decoded,
        None => raw,
    }
}

/// One shell_v2 packet: channel byte, payload length little-endian, payload.
pub open spec fn encode_packet(channel: u8, payload: Seq<u8>) -> Seq<u8> {
    let n = payload.len();
    seq![
        channel,
        (n % 256) as u8,
        (n / 256 % 256) as u8,
        (n / 65536 % 256) as u8,
        (n / 16777216 % 256) as u8,
    ] + payload
}

/// A stream of packets written one after the other.
pub open spec fn encode_packets(packets: Seq<(u8, Seq<u8>)>) -> Seq<u8>
    decreases packets.len(),
{
    if packets.len() == 0 {
        Seq::empty()
    } else {
        encode_packet(packets[0].0, packets[0].1) + encode_packets(packets.drop_first())
    }
}

/// The payloads of the packets on `channel`, in order.
pub open spec fn channel_payloads(packets: Seq<(u8, Seq<u8>)>, channel: u8) -> Seq<u8>
    decreases packets.len(),
{
    if packets.len() == 0 {
        Seq::empty()
    } else {
        let rest = channel_payloads(packets.drop_first(), channel);
        if packets[0].0 == channel {
            packets[0].1 + rest
        } else {
            rest
        }
    }
}

/// Packets that a shell_v2 stream can carry: known channels, and payloads
/// whose length fits in the four length bytes.
pub open spec fn well_formed_packets(packets: Seq<(u8, Seq<u8>)>) -> bool {
    forall|i: int|
        0 <= i < packets.len() ==> {
            &&& (#[trigger] packets[i]).0 == SHELL_V2_STDOUT || packets[i].0 == SHELL_V2_STDERR
                || packets[i].0 == SHELL_V2_EXIT
            &&& packets[i].1.len() < 4294967296
        }
}

proof fn lemma_le_u32_of_length(n: nat)
    requires
        n < 4294967296,
    ensures
        (((n % 256) as u8) as nat) + (((n / 256 % 256) as u8) as nat) * 256 + (((n / 65536
            % 256) as u8) as nat) * 65536 + (((n / 16777216 % 256) as u8) as nat) * 16777216 == n,
{
    assert(((n % 256) as u8) as nat == n % 256);
    assert(((n / 256 % 256) as u8) as nat == n / 256 % 256);
    assert(((n / 65536 % 256) as u8) as nat == n / 65536 % 256);
    assert(((n / 16777216 % 256) as u8) as nat == n / 16777216 % 256);
    assert((n % 256) + (n / 256 % 256) * 256 + (n / 65536 % 256) * 65536 + (n / 16777216 % 256)
        * 16777216 == n) by (nonlinear_arith)
        requires
            n < 4294967296,
    ;
}

/// Reading back a stream of well-formed packets gives each channel's
/// payloads concatenated in order.
pub proof fn lemma_shell_v2_packets_of_encoding(packets: Seq<(u8, Seq<u8>)>)
    requires
        well_formed_packets(packets),
    ensures
        shell_v2_packets(encode_packets(packets)) == Some(
            (
                channel_payloads(packets, SHELL_V2_STDOUT),
                channel_payloads(packets, SHELL_V2_STDERR),
                packets.len() > 0,
            ),
        ),
    decreases packets.len(),
{
    if packets.len() > 0 {
        let rest = packets.drop_first();
        assert(well_formed_packets(rest)) by {
            assert forall|i: int| 0 <= i < rest.len() implies {
                &&& (#[trigger] rest[i]).0 == SHELL_V2_STDOUT || rest[i].0 == SHELL_V2_STDERR
                    || rest[i].0 == SHELL_V2_EXIT
                &&& rest[i].1.len() < 4294967296
            } by {
                assert(rest[i] == packets[i + 1]);
            }
        }
        lemma_shell_v2_packets_of_encoding(rest);
        let c = packets[0].0;
        let p = packets[0].1;
        assert(packets[0] == packets[0]);
        lemma_le_u32_of_length(p.len());
        let raw = encode_packets(packets);
        let head = encode_packet(c, p);
        assert(raw == head + encode_packets(rest));
        assert(le_u32_at(raw, 1) == p.len());
        assert(raw.subrange(5, 5 + p.len() as int) =~= p);
        assert(raw.skip(5 + p.len() as int) =~= encode_packets(rest));
    }
}

/// A stream made of well-formed packets, at least one, decodes to its
/// stdout payloads followed by its stderr payloads.
pub proof fn lemma_try_decode_shell_v2_of_encoding(packets: Seq<(u8, Seq<u8>)>)
    requires
        well_formed_packets(packets),
        packets.len() > 0,
    ensures
        spec_try_decode_shell_v2(encode_packets(packets)) == Some(
            merge_stdout_stderr(
                channel_payloads(packets, SHELL_V2_STDOUT),
                channel_payloads(packets, SHELL_V2_STDERR),
            ),
        ),
{
    lemma_shell_v2_packets_of_encoding(packets);
    assert(encode_packets(packets).len() >= 5);
}

/// What a well-formed shell_v2 stream decodes to, written out case by case
/// over its stdout bytes `o` and stderr bytes `e`: no stderr leaves stdout
/// as it is; stderr with no stdout is the whole text; otherwise stderr
/// follows stdout, on a new line where stdout does not end with one. In
/// every case no stderr byte is lost: the text ends with `e`, and starts
/// with `o`.
pub proof fn lemma_shell_v2_keeps_stdout_and_stderr(packets: Seq<(u8, Seq<u8>)>)
    requires
        well_formed_packets(packets),
        packets.len() > 0,
    ensures
        ({
            let o = channel_payloads(packets, SHELL_V2_STDOUT);
            let e = channel_payloads(packets, SHELL_V2_STDERR);
            let d = spec_try_decode_shell_v2(encode_packets(packets));
            &&& d is Some
            &&& e.len() == 0 ==> d == Some(o)
            &&& e.len() > 0 && o.len() == 0 ==> d == Some(e)
            &&& e.len() > 0 && o.len() > 0 && o.last() == 10u8 ==> d == Some(o + e)
            &&& e.len() > 0 && o.len() > 0 && o.last() != 10u8 ==> d == Some(o + seq![10u8] + e)
            &&& d.unwrap().len() >= o.len() + e.len()
            &&& d.unwrap().subrange(0, o.len() as int) == o
            &&& d.unwrap().subrange(d.unwrap().len() - e.len(), d.unwrap().len() as int) == e
        }),
{
    lemma_try_decode_shell_v2_of_encoding(packets);
    let o = channel_payloads(packets, SHELL_V2_STDOUT);
    let e = channel_payloads(packets, SHELL_V2_STDERR);
    let m = merge_stdout_stderr(o, e);
    if e.len() > 0 && o.len() > 0 && o.last() != 10u8 {
        assert(o.push(10u8) =~= o + seq![10u8]);
        assert(m.subrange(0, o.len() as int) =~= o);
        assert(m.subrange(m.len() - e.len(), m.len() as int) =~= e);
    } else {
        assert(m.subrange(0, o.len() as int) =~= o);
        assert(m.subrange(m.len() - e.len(), m.len() as int) =~= e);
    }
}

/// Client of the local ADB server.
///
/// The connection itself is opened per command; the value carries no state.
#[derive(Debug)]
pub struct AdbClient {
    _marker: (),
}

impl AdbClient {
    /// A client made without checking that the ADB server answers.
    pub fn unchecked() -> (r: Self) {
        AdbClient { _marker: () }
    }

    /// Decodes the raw bytes of an `adb shell` answer into text.
    ///
    /// A well-formed shell_v2 packet stream is unpacked first; anything else
    /// is taken as plain text.  Fails when the chosen bytes are not UTF-8.
    pub fn decode_shell_output(raw: &[u8]) -> (r: Result<String, std::string::FromUtf8Error>)
        ensures
            r is Ok <==> valid_utf8(shell_output_bytes(raw@)),
            r matches Ok(s) ==> s@ == decode_utf8(shell_output_bytes(raw@)),
    {
        match Self::try_decode_shell_v2(raw) {
            Some(decoded) => string_from_utf8(decoded),
            None => {
                let mut copy: Vec<u8> = Vec::new();
                let mut k: usize = 0;
                while k < raw.len()
                    invariant
                        k <= raw.len(),
                        copy@ == raw@.subrange(0, k as int),
                    decreases raw.len() - k,
                {
                    copy.push(raw[k]);
                    k = k + 1;
                }
                assert(copy@ == raw@);
                string_from_utf8(copy)
            },
        }
    }

    /// Unpacks a shell_v2 packet stream.
    ///
    /// `None` when `raw` is shorter than one header, holds a packet on an
    /// unknown channel, ends inside a packet, or holds no packet at all.
    pub fn try_decode_shell_v2(raw: &[u8]) -> (r: Option<Vec<u8>>)
        ensures
            r is Some <==> spec_try_decode_shell_v2(raw@) is Some,
            r matches Some(v) ==> Some(v@) == spec_try_decode_shell_v2(raw@),
    {
        if raw.len() < SHELL_V2_HEADER_LEN {
            return None;
        }
        let mut i: usize = 0;
        let mut saw_packet = false;
        let mut stdout: Vec<u8> = Vec::new();
        let mut stderr: Vec<u8> = Vec::new();
        assert(raw@.skip(0) =~= raw@);
        while i < raw.len()
            invariant
                i <= raw.len(),
                raw.len() >= 5,
                shell_v2_packets(raw@) == match shell_v2_packets(raw@.skip(i as int)) {
                    None => None,
                    Some((o, e, s)) => Some((stdout@ + o, stderr@ + e, saw_packet || s)),
                },
            decreases raw.len() - i,
        {
            let ghost rest = raw@.skip(i as int);
            if raw.len() - i < SHELL_V2_HEADER_LEN {
                assert(shell_v2_packets(rest) is None);
                return None;
            }
            let channel = raw[i];
            let len: u64 = raw[i + 1] as u64 + (raw[i + 2] as u64) * 256 + (raw[i + 3] as u64)
                * 65536 + (raw[i + 4] as u64) * 16777216;
            assert(len == le_u32_at(rest, 1));
            let avail = raw.len() - i - SHELL_V2_HEADER_LEN;
            if len > avail as u64 {
                return None;
            }
            let start = i + SHELL_V2_HEADER_LEN;
            let end = start + len as usize;
            if channel != SHELL_V2_STDOUT && channel != SHELL_V2_STDERR && channel != SHELL_V2_EXIT {
                return None;
            }
            let ghost payload = raw@.subrange(start as int, end as int);
            assert(rest.subrange(5, 5 + len as int) =~= payload);
            assert(rest.skip(5 + len as int) =~= raw@.skip(end as int));
            let ghost old_out = stdout@;
            let ghost old_err = stderr@;
            let mut k: usize = start;
            if channel == SHELL_V2_STDOUT {
                while k < end
                    invariant
                        start <= k <= end <= raw.len(),
                        stdout@ == old_out + raw@.subrange(start as int, k as int),
                    decreases end - k,
                {
                    stdout.push(raw[k]);
                    k = k + 1;
                }
            } else if channel == SHELL_V2_STDERR {
                while k < end
                    invariant
                        start <= k <= end <= raw.len(),
                        stderr@ == old_err + raw@.subrange(start as int, k as int),
                    decreases end - k,
                {
                    stderr.push(raw[k]);
                    k = k + 1;
                }
            }
            proof {
                match shell_v2_packets(raw@.skip(end as int)) {
                    None => {},
                    Some((o, e, s)) => {
                        if channel == SHELL_V2_STDOUT {
                            assert(old_out + (payload + o) =~= stdout@ + o);
                        } else if channel == SHELL_V2_STDERR {
                            assert(old_err + (payload + e) =~= stderr@ + e);
                        }
                    },
                }
            }
            saw_packet = true;
            i = end;
        }
        assert(raw@.skip(raw.len() as int) =~= Seq::<u8>::empty());
        if !saw_packet {
            return None;
        }
        if stderr.len() > 0 {
            if stdout.len() > 0 && stdout[stdout.len() - 1] != 10u8 {
                stdout.push(10u8);
            }
            let ghost before = stdout@;
            let mut k: usize = 0;
            while k < stderr.len()
                invariant
                    k <= stderr.len(),
                    stdout@ == before + stderr@.subrange(0, k as int),
                decreases stderr.len() - k,
            {
                stdout.push(stderr[k]);
                k = k + 1;
            }
            assert(stderr@.subrange(0, stderr.len() as int) =~= stderr@);
        }
        Some(stdout)
    }
}

} // verus!
