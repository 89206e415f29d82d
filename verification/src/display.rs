//! How sizes and times of files are shown.
//!
//! A size of a kilobyte or more is shown with two decimals, as a binary
//! floating-point number formatted with two decimals shows it: the size is
//! first rounded to 53 significant bits (what converting it to `f64` does),
//! and the quotient is rounded to hundredths, ties to even.
use vstd::prelude::*;
use vstd::arithmetic::power2::{pow2, lemma_pow2_unfold, lemma2_to64, lemma_pow2_pos};
use crate::codec::{utc_time_text, format_utc};
use crate::explorer::{FileMetadata, FileTime};
use crate::text::{dec, digit_char, dec_chars, digit_to_char, u64_to_string, concat2, push_char, push_chars};

verus! {

/// The number of bits of `n` (0 for 0).
pub open spec fn bit_len(n: nat) -> nat
    decreases n,
{
    if n == 0 {
        0
    } else {
        1 + bit_len(n / 2)
    }
}

/// `n / d` rounded to the nearest integer, ties to the even one.
pub open spec fn round_half_even(n: nat, d: nat) -> nat {
    let q = n / d;
    let r = n % d;
    if 2 * r > d || (2 * r == d && q % 2 == 1) {
        q + 1
    } else {
        q
    }
}

/// The value of `n` converted to a binary double: `n` rounded to 53
/// significant bits, ties to even.
pub open spec fn f64_value(n: nat) -> nat {
    if bit_len(n) <= 53 {
        n
    } else {
        let s = (bit_len(n) - 53) as nat;
        round_half_even(n, pow2(s)) * pow2(s)
    }
}

/// `h` hundredths with two decimals (`12.05` for 1205).
pub open spec fn two_decimals(h: nat) -> Seq<char> {
    dec(h / 100) + seq!['.', digit_char(h % 100 / 10), digit_char(h % 10)]
}

/// `v / 2^k` with two decimals.
pub open spec fn scaled_text(v: nat, k: nat) -> Seq<char> {
    two_decimals(round_half_even(v * 100, pow2(k)))
}

/// A size as shown: `<DIR>` for directories; bytes below a kilobyte;
/// kilobytes, megabytes or gigabytes with two decimals above.
pub open spec fn size_text(size: u64, is_dir: bool) -> Seq<char> {
    if is_dir {
        "<DIR>"@
    } else if size < 1024 {
        dec(size as nat) + " B"@
    } else if size < 1024 * 1024 {
        scaled_text(size as nat, 10) + " KB"@
    } else if size < 1024 * 1024 * 1024 {
        scaled_text(size as nat, 20) + " MB"@
    } else {
        scaled_text(f64_value(size as nat), 30) + " GB"@
    }
}

fn bit_length(n: u64) -> (b: u32)
    ensures
        b == bit_len(n as nat),
        b <= 64,
{
    let mut m = n;
    let mut b: u32 = 0;
    proof {
        lemma2_to64();
    }
    while m > 0
        invariant
            b <= 64,
            bit_len(n as nat) == b + bit_len(m as nat),
            m < pow2((64 - b) as nat),
        decreases m,
    {
        proof {
            if b == 64 {
                lemma2_to64();
                assert(false);
            }
            lemma_pow2_unfold((64 - b) as nat);
        }
        m = m / 2;
        b = b + 1;
    }
    b
}

fn power_of_two(e: u32) -> (p: u128)
    requires
        e <= 64,
    ensures
        p == pow2(e as nat),
{
    let mut p: u128 = 1;
    let mut i: u32 = 0;
    proof {
        lemma2_to64();
    }
    while i < e
        invariant
            i <= e <= 64,
            p == pow2(i as nat),
            pow2(64) == 0x1_0000_0000_0000_0000,
        decreases e - i,
    {
        proof {
            lemma_pow2_unfold((i + 1) as nat);
            if i < 64 {
                vstd::arithmetic::power2::lemma_pow2_strictly_increases(i as nat, 64);
            }
        }
        p = p * 2;
        i = i + 1;
    }
    p
}

fn round_half_even_exec(n: u128, d: u128) -> (r: u128)
    requires
        d > 1,
    ensures
        r == round_half_even(n as nat, d as nat),
{
    let q = n / d;
    let r = n % d;
    proof {
        assert(q <= n / 2) by (nonlinear_arith)
            requires
                d > 1,
                q == n / d,
        ;
    }
    if r > d - r || (r == d - r && q % 2 == 1) {
        q + 1
    } else {
        q
    }
}

/// The size rounded as converting it to a binary double does.
fn double_value(n: u64) -> (v: u128)
    ensures
        v == f64_value(n as nat),
        v <= 0x1_0000_0000_0000_0000 + 2048,
{
    let b = bit_length(n);
    if b <= 53 {
        return n as u128;
    }
    let s = b - 53;
    let p = power_of_two(s);
    proof {
        lemma2_to64();
        if s < 11 {
            vstd::arithmetic::power2::lemma_pow2_strictly_increases(s as nat, 11);
        }
    }
    let nn: u128 = n as u128;
    let q = round_half_even_exec(nn, p);
    proof {
        vstd::arithmetic::div_mod::lemma_fundamental_div_mod(nn as int, p as int);
        assert(q * p <= nn + p) by (nonlinear_arith)
            requires
                q <= nn / p + 1,
                p > 0,
                p * (nn / p) + nn % p == nn,
                nn % p >= 0,
        ;
    }
    q * p
}

/// `h` hundredths with two decimals.
fn two_decimals_text(h: u64) -> (s: String)
    ensures
        s@ == two_decimals(h as nat),
{
    let mut s = u64_to_string(h / 100);
    push_char(&mut s, '.');
    push_char(&mut s, digit_to_char(h % 100 / 10));
    push_char(&mut s, digit_to_char(h % 10));
    assert(s@ =~= two_decimals(h as nat));
    s
}

/// `v / 2^k` with two decimals.
fn scaled(v: u128, k: u32) -> (s: String)
    requires
        10 <= k <= 30,
        v <= 0x1_0000_0000_0000_0000 + 2048,
    ensures
        s@ == scaled_text(v as nat, k as nat),
{
    let d = power_of_two(k);
    proof {
        lemma2_to64();
        if k > 10 {
            vstd::arithmetic::power2::lemma_pow2_strictly_increases(10, k as nat);
        }
    }
    let n = v * 100;
    let h = round_half_even_exec(n, d);
    proof {
        assert(n / d <= n / 1024) by (nonlinear_arith)
            requires
                d >= 1024,
                n >= 0,
        ;
        assert(n / 1024 < 0xffff_ffff_ffff_fff0) by (nonlinear_arith)
            requires
                n == v * 100,
                v <= 0x1_0000_0000_0000_0000 + 2048,
        ;
    }
    two_decimals_text(h as u64)
}

impl FileMetadata {
    /// The size as shown in the status bar.
    pub fn format_size(&self) -> (s: String)
        ensures
            s@ == size_text(self.size, self.is_dir),
    {
        if self.is_dir {
            return "<DIR>".to_owned();
        }
        let size = self.size;
        if size < 1024 {
            let n = u64_to_string(size);
            concat2(n.as_str(), " B")
        } else if size < 1024 * 1024 {
            let t = scaled(size as u128, 10);
            concat2(t.as_str(), " KB")
        } else if size < 1024 * 1024 * 1024 {
            let t = scaled(size as u128, 20);
            concat2(t.as_str(), " MB")
        } else {
            let v = double_value(size);
            let t = scaled(v, 30);
            concat2(t.as_str(), " GB")
        }
    }

    /// The modification time as shown in the status bar.
    pub fn format_modified(&self) -> (s: String)
        ensures
            s@ == time_text(self.modified),
    {
        format_time(self.modified)
    }

    /// The creation time as shown in the status bar.
    pub fn format_created(&self) -> (s: String)
        ensures
            s@ == time_text(self.created),
    {
        format_time(self.created)
    }
}

/// The format of file times.
pub open spec fn time_format() -> Seq<char> {
    "%Y-%m-%d %H:%M:%S"@
}

/// A file time as shown: its UTC date and time to the second (the epoch
/// when it cannot be represented); `Unknown` when there is none or it lies
/// before the epoch.
pub open spec fn time_text(t: Option<FileTime>) -> Seq<char> {
    match t {
        Some(ft) => if ft.seconds < 0 {
            "Unknown"@
        } else {
            match utc_time_text(ft.seconds as int, time_format()) {
                Some(text) => text,
                None => utc_time_text(0, time_format())->0,
            }
        },
        None => "Unknown"@,
    }
}

/// Shows a file time.
pub fn format_time(t: Option<FileTime>) -> (s: String)
    ensures
        s@ == time_text(t),
{
    match t {
        Some(ft) => {
            if ft.seconds < 0 {
                "Unknown".to_owned()
            } else {
                match format_utc(ft.seconds, "%Y-%m-%d %H:%M:%S") {
                    Some(text) => text,
                    None => match format_utc(0, "%Y-%m-%d %H:%M:%S") {
                        Some(text) => text,
                        None => String::new(),
                    },
                }
            }
        },
        None => "Unknown".to_owned(),
    }
}

/// A payload size as the ping test labels it: bytes, or whole kilobytes or
/// megabytes (rounded down).
pub open spec fn ping_label_text(size: u64) -> Seq<char> {
    if size < 1024 {
        dec(size as nat) + " B"@
    } else if size < 1048576 {
        dec((size / 1024) as nat) + " KB"@
    } else {
        dec((size / 1048576) as nat) + " MB"@
    }
}

/// The label of a ping payload size.
pub fn ping_size_label(size: u64) -> (s: String)
    ensures
        s@ == ping_label_text(size),
{
    if size < 1024 {
        let n = u64_to_string(size);
        concat2(n.as_str(), " B")
    } else if size < 1048576 {
        let n = u64_to_string(size / 1024);
        concat2(n.as_str(), " KB")
    } else {
        let n = u64_to_string(size / 1048576);
        concat2(n.as_str(), " MB")
    }
}

/// The payload sizes of the ping test: 0 bytes, then 1 KiB to 1 MiB by
/// factors of four.
pub const PING_SIZES: [u64; 7] = [0, 1024, 4096, 16384, 65536, 262144, 1048576];

/// The bytes a ping exchange is estimated to move: the payload both ways,
/// plus an envelope of the session id and 50 bytes each way.
pub open spec fn ping_traffic(size: nat, session_id_len: nat) -> nat {
    size + (session_id_len + 50) + size + (session_id_len + 50)
}

/// Estimates the bytes a ping exchange moves.
pub fn ping_traffic_estimate(size: u64, session_id_len: u64) -> (n: u64)
    requires
        ping_traffic(size as nat, session_id_len as nat) <= u64::MAX,
    ensures
        n == ping_traffic(size as nat, session_id_len as nat),
{
    size + (session_id_len + 50) + size + (session_id_len + 50)
}

} // verus!
