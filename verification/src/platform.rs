//! Platform identification.
//!
//! The engines ship one native library per platform, so the library must
//! name the platform it runs on.  For most targets the name is fixed at
//! build time; on ARM Linux it is derived from the CPU model, read from
//! the text of `/proc/cpuinfo`.  Reading that file is I/O and stays with
//! the caller; everything from the raw text to the platform name is
//! computed — and verified — here: find the first line that mentions
//! `CPU part`, take its last space-separated token, fold it to lower
//! case, and map the part code to a machine and the machine to a
//! platform.

use vstd::prelude::*;
use vstd::string::{StrSliceExecFns, StringExecFns};

verus! {

/// Why no platform name could be determined.
#[derive(Debug, Clone, Copy, PartialEq, Eq, Structural)]
pub enum PlatformError {
    /// The CPU description text contains no `CPU part` line at all.
    UnsupportedCpu,
    /// The CPU part code names a device the engines do not support.
    UnsupportedDevice,
}

/// The compilation target, as far as platform naming cares.  The caller
/// knows its target at build time and passes the matching variant.
#[derive(Debug, Clone, Copy, PartialEq, Eq, Structural)]
pub enum BuildTarget {
    MacOs,
    Windows,
    LinuxX86,
    LinuxArm,
}

/// `pat` occurs in `s` starting at position `i`.
pub open spec fn match_at(s: Seq<char>, pat: Seq<char>, i: int) -> bool {
    &&& 0 <= i
    &&& i + pat.len() <= s.len()
    &&& s.subrange(i, i + pat.len()) == pat
}

/// `pat` occurs somewhere in `s`.
pub open spec fn contains_seq(s: Seq<char>, pat: Seq<char>) -> bool {
    exists|i: int| match_at(s, pat, i)
}

/// ASCII case folding of one character.
pub open spec fn lower_char(c: char) -> char {
    if 'A' <= c && c <= 'Z' {
        ((c as u32) + 32) as char
    } else {
        c
    }
}

/// ASCII case folding of a character sequence.
pub open spec fn lower_seq(s: Seq<char>) -> Seq<char> {
    s.map_values(|c: char| lower_char(c))
}

/// The machine a CPU part code stands for; codes outside the table give
/// `unsupported`.
pub open spec fn machine_name(tok: Seq<char>) -> Seq<char> {
    if tok == "0xb76"@ {
        "arm11"@
    } else if tok == "0xc07"@ {
        "cortex-a7"@
    } else if tok == "0xd03"@ {
        "cortex-a53"@
    } else if tok == "0xd07"@ {
        "cortex-a57"@
    } else if tok == "0xd08"@ {
        "cortex-a72"@
    } else if tok == "0xc08"@ {
        "beaglebone"@
    } else {
        "unsupported"@
    }
}

/// The machines that identify a Raspberry Pi.
pub open spec fn is_rpi_machine(m: Seq<char>) -> bool {
    m == "arm11"@ || m == "cortex-a7"@ || m == "cortex-a53"@ || m == "cortex-a72"@
}

/// The machines that identify a Jetson board.
pub open spec fn is_jetson_machine(m: Seq<char>) -> bool {
    m == "cortex-a57"@
}

/// The platform name for a machine, when the device is supported.
pub open spec fn platform_of_machine(m: Seq<char>) -> Option<Seq<char>> {
    if is_rpi_machine(m) {
        Some("raspberry-pi"@)
    } else if is_jetson_machine(m) {
        Some("jetson"@)
    } else if m == "beaglebone"@ {
        Some("beaglebone"@)
    } else {
        None
    }
}

/// The witnesses that locate the part code in a CPU description text
/// `s`: `i` is the first occurrence of `CPU part`; `b` and `e` bound the
/// line it stands on; `t` starts that line's last space-separated token.
/// The conditions pin every witness uniquely.
pub open spec fn machine_witness(s: Seq<char>, i: int, b: int, e: int, t: int) -> bool {
    &&& match_at(s, "CPU part"@, i)
    &&& (forall|j: int| 0 <= j < i ==> !match_at(s, "CPU part"@, j))
    &&& 0 <= b <= i
    &&& (b == 0 || s[b - 1] == '\n')
    &&& (forall|j: int| b <= j < i ==> s[j] != '\n')
    &&& i <= e <= s.len()
    &&& (e == s.len() || s[e] == '\n')
    &&& (forall|j: int| i <= j < e ==> s[j] != '\n')
    &&& b <= t <= e
    &&& (t == b || s[t - 1] == ' ')
    &&& (forall|j: int| t <= j < e ==> s[j] != ' ')
}

/// How a machine name is read out of a CPU description text: the line's
/// last token, folded to lower case, names the machine.
pub open spec fn machine_type_of(s: Seq<char>, m: Seq<char>) -> bool {
    exists|i: int, b: int, e: int, t: int|
        #[trigger] machine_witness(s, i, b, e, t) && m == machine_name(
            lower_seq(s.subrange(t, e)),
        )
}

/// Collects the characters of a string into a vector.
fn chars_vec(s: &str) -> (v: Vec<char>)
    ensures
        v@ =~= s@,
{
    let n = s.unicode_len();
    let mut v: Vec<char> = Vec::new();
    let mut i: usize = 0;
    while i < n
        invariant
            n == s@.len(),
            i <= n,
            v@ =~= s@.take(i as int),
        decreases n - i,
    {
        v.push(s.get_char(i));
        i += 1;
        proof {
            assert(s@.take(i as int) =~= s@.take(i - 1).push(s@[i - 1]));
        }
    }
    proof {
        assert(s@.take(n as int) =~= s@);
    }
    v
}

/// Whether `pat` stands at position `i` of `v`.
fn matches_at(v: &Vec<char>, pat: &Vec<char>, i: usize) -> (b: bool)
    requires
        i + pat@.len() <= v@.len(),
    ensures
        b == match_at(v@, pat@, i as int),
{
    let m = pat.len();
    let n = v.len();
    let mut k: usize = 0;
    while k < m
        invariant
            m == pat@.len(),
            n == v@.len(),
            i + m <= n,
            k <= m,
            forall|j: int| 0 <= j < k ==> v@[i + j] == pat@[j],
        decreases m - k,
    {
        if v[i + k] != pat[k] {
            proof {
                assert(v@.subrange(i as int, i + m)[k as int] != pat@[k as int]);
            }
            return false;
        }
        k += 1;
    }
    proof {
        assert(v@.subrange(i as int, i + m) =~= pat@);
    }
    true
}

/// The position of the first occurrence of `pat` in `v`, if any.
fn find_first(v: &Vec<char>, pat: &Vec<char>) -> (r: Option<usize>)
    ensures
        r matches Some(i) ==> match_at(v@, pat@, i as int) && (forall|j: int|
            0 <= j < i ==> !match_at(v@, pat@, j)),
        r is None ==> !contains_seq(v@, pat@),
{
    let n = v.len();
    let m = pat.len();
    if m > n {
        return None;
    }
    if m == 0 {
        proof {
            assert(match_at(v@, pat@, 0)) by {
                assert(v@.subrange(0, 0) =~= pat@);
            }
        }
        return Some(0);
    }
    let mut i: usize = 0;
    while i <= n - m
        invariant
            n == v@.len(),
            m == pat@.len(),
            1 <= m <= n,
            i <= n - m + 1,
            forall|j: int| 0 <= j < i ==> !match_at(v@, pat@, j),
        decreases n - m + 1 - i,
    {
        if matches_at(v, pat, i) {
            return Some(i);
        }
        i += 1;
    }
    None
}

/// The start of the line around position `p`: the first position after
/// the previous newline, or the start of the text.
fn line_start(v: &Vec<char>, p: usize) -> (b: usize)
    requires
        p <= v@.len(),
    ensures
        b <= p,
        b == 0 || v@[b - 1] == '\n',
        forall|j: int| b <= j < p ==> v@[j] != '\n',
{
    let mut b = p;
    while b > 0 && v[b - 1] != '\n'
        invariant
            p <= v@.len(),
            b <= p,
            forall|j: int| b <= j < p ==> v@[j] != '\n',
        decreases b,
    {
        b -= 1;
    }
    b
}

/// The end of the line around position `p`: the next newline, or the end
/// of the text.
fn line_end(v: &Vec<char>, p: usize) -> (e: usize)
    requires
        p <= v@.len(),
    ensures
        p <= e <= v@.len(),
        e == v@.len() || v@[e as int] == '\n',
        forall|j: int| p <= j < e ==> v@[j] != '\n',
{
    let n = v.len();
    let mut e = p;
    while e < n && v[e] != '\n'
        invariant
            n == v@.len(),
            p <= e <= n,
            forall|j: int| p <= j < e ==> v@[j] != '\n',
        decreases n - e,
    {
        e += 1;
    }
    e
}

/// The start of the last space-separated token of the line `[b, e)`: the
/// first position after the line's last space, or the start of the line.
fn token_start(v: &Vec<char>, b: usize, e: usize) -> (t: usize)
    requires
        b <= e <= v@.len(),
    ensures
        b <= t <= e,
        t == b || v@[t - 1] == ' ',
        forall|j: int| t <= j < e ==> v@[j] != ' ',
{
    let mut t = e;
    while t > b && v[t - 1] != ' '
        invariant
            b <= t <= e <= v@.len(),
            forall|j: int| t <= j < e ==> v@[j] != ' ',
        decreases t,
    {
        t -= 1;
    }
    t
}

/// ASCII case folding of one character.
fn to_lower_char(c: char) -> (r: char)
    ensures
        r == lower_char(c),
{
    match c {
        'A' => 'a',
        'B' => 'b',
        'C' => 'c',
        'D' => 'd',
        'E' => 'e',
        'F' => 'f',
        'G' => 'g',
        'H' => 'h',
        'I' => 'i',
        'J' => 'j',
        'K' => 'k',
        'L' => 'l',
        'M' => 'm',
        'N' => 'n',
        'O' => 'o',
        'P' => 'p',
        'Q' => 'q',
        'R' => 'r',
        'S' => 's',
        'T' => 't',
        'U' => 'u',
        'V' => 'v',
        'W' => 'w',
        'X' => 'x',
        'Y' => 'y',
        'Z' => 'z',
        _ => c,
    }
}

/// Whether the collected characters spell exactly `pat`.
fn chars_eq_str(v: &Vec<char>, pat: &str) -> (b: bool)
    ensures
        b == (v@ == pat@),
{
    let n = pat.unicode_len();
    if v.len() != n {
        return false;
    }
    let mut k: usize = 0;
    while k < n
        invariant
            n == pat@.len(),
            v@.len() == n,
            k <= n,
            forall|j: int| 0 <= j < k ==> v@[j] == pat@[j],
        decreases n - k,
    {
        if v[k] != pat.get_char(k) {
            return false;
        }
        k += 1;
    }
    proof {
        assert(v@ =~= pat@);
    }
    true
}

/// Maps a lower-cased CPU part code to the machine it names.
fn machine_of_token(lowered: &Vec<char>) -> (r: String)
    ensures
        r@ == machine_name(lowered@),
{
    if chars_eq_str(lowered, "0xb76") {
        String::from_str("arm11")
    } else if chars_eq_str(lowered, "0xc07") {
        String::from_str("cortex-a7")
    } else if chars_eq_str(lowered, "0xd03") {
        String::from_str("cortex-a53")
    } else if chars_eq_str(lowered, "0xd07") {
        String::from_str("cortex-a57")
    } else if chars_eq_str(lowered, "0xd08") {
        String::from_str("cortex-a72")
    } else if chars_eq_str(lowered, "0xc08") {
        String::from_str("beaglebone")
    } else {
        String::from_str("unsupported")
    }
}

/// Reads the machine type out of a CPU description text, the text of
/// `/proc/cpuinfo`: the first line mentioning `CPU part` carries the part
/// code as its last space-separated token, which — folded to lower case —
/// names the machine.  Fails when no line mentions `CPU part`.
pub fn find_machine_type(cpu_info: &str) -> (r: Result<String, PlatformError>)
    ensures
        r is Ok <==> contains_seq(cpu_info@, "CPU part"@),
        r matches Ok(m) ==> machine_type_of(cpu_info@, m@),
        r matches Err(e) ==> e == PlatformError::UnsupportedCpu,
{
    let s = chars_vec(cpu_info);
    let pat = chars_vec("CPU part");
    match find_first(&s, &pat) {
        None => Err(PlatformError::UnsupportedCpu),
        Some(i) => {
            let b = line_start(&s, i);
            let e = line_end(&s, i);
            let t = token_start(&s, b, e);
            let mut lowered: Vec<char> = Vec::new();
            let mut j = t;
            while j < e
                invariant
                    t <= j <= e <= s@.len(),
                    lowered@ =~= lower_seq(s@.subrange(t as int, j as int)),
                decreases e - j,
            {
                lowered.push(to_lower_char(s[j]));
                j += 1;
                proof {
                    assert(s@.subrange(t as int, j as int) =~= s@.subrange(
                        t as int,
                        j - 1,
                    ).push(s@[j - 1]));
                    assert(lowered@ =~= lower_seq(s@.subrange(t as int, j as int)));
                }
            }
            let m = machine_of_token(&lowered);
            proof {
                assert(machine_witness(cpu_info@, i as int, b as int, e as int, t as int));
                assert(m@ == machine_name(lower_seq(cpu_info@.subrange(t as int, e as int))));
            }
            Ok(m)
        },
    }
}

/// The platform name the engines use to pick their native binaries.
/// macOS, Windows and x86-64 Linux carry fixed names; on ARM Linux the
/// name follows from the machine type read out of the CPU description
/// text (the caller reads `/proc/cpuinfo` and passes its text — for the
/// other targets the text is ignored).
pub fn pv_platform(target: BuildTarget, cpu_info: &str) -> (r: Result<String, PlatformError>)
    ensures
        target is MacOs ==> (r matches Ok(p) && p@ == "mac"@),
        target is Windows ==> (r matches Ok(p) && p@ == "windows"@),
        target is LinuxX86 ==> (r matches Ok(p) && p@ == "linux"@),
        target is LinuxArm ==> match r {
            Ok(p) => exists|m: Seq<char>|
                #[trigger] machine_type_of(cpu_info@, m) && platform_of_machine(m) == Some(p@),
            Err(e) => {
                ||| (e == PlatformError::UnsupportedCpu && !contains_seq(cpu_info@, "CPU part"@))
                ||| (e == PlatformError::UnsupportedDevice && exists|m: Seq<char>|
                    #[trigger] machine_type_of(cpu_info@, m) && platform_of_machine(m) is None)
            },
        },
{
    match target {
        BuildTarget::MacOs => Ok(String::from_str("mac")),
        BuildTarget::Windows => Ok(String::from_str("windows")),
        BuildTarget::LinuxX86 => Ok(String::from_str("linux")),
        BuildTarget::LinuxArm => {
            let machine = find_machine_type(cpu_info)?;
            let is_rpi = chars_eq_machine(&machine, "arm11") || chars_eq_machine(
                &machine,
                "cortex-a7",
            ) || chars_eq_machine(&machine, "cortex-a53") || chars_eq_machine(
                &machine,
                "cortex-a72",
            );
            if is_rpi {
                Ok(String::from_str("raspberry-pi"))
            } else if chars_eq_machine(&machine, "cortex-a57") {
                Ok(String::from_str("jetson"))
            } else if chars_eq_machine(&machine, "beaglebone") {
                Ok(String::from_str("beaglebone"))
            } else {
                Err(PlatformError::UnsupportedDevice)
            }
        },
    }
}

/// Whether a machine name equals `pat`.
fn chars_eq_machine(m: &String, pat: &str) -> (b: bool)
    ensures
        b == (m@ == pat@),
{
    let v = chars_vec(m.as_str());
    chars_eq_str(&v, pat)
}

} // verus!
