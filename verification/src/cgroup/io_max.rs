//! Per-device I/O throughput limits.
//!
//! A limit is supplied as one `"<device_path>:<limit>"` string per
//! (direction, metric) pair. An entry is checked in the order its error
//! taxonomy lists: the colon structure first, then the device lookup on
//! disk, then the limit numeral; a malformed string is rejected before any
//! filesystem access.

use vstd::prelude::*;
use vstd::slice::slice_subrange;
use vstd::string::*;
use vstd::utf8::{decode_utf8, valid_utf8};

use crate::decimal::{
    dec_str, dec_val, is_u64_numeral, parse_u64, u64_digit_part, u64_to_string,
};
use crate::strutil::{push_char, string_from_utf8};
use crate::sysfs::read_file_bytes;

verus! {

#[derive(Debug, Clone, Copy, PartialEq, Eq, Structural)]
pub enum IOMaxError {
    InvalidFormat,
    InvalidDevice,
    InvalidLimit,
}

impl IOMaxError {
    /// The user-facing description of this error.
    pub open spec fn message_text(&self) -> Seq<char> {
        match *self {
            IOMaxError::InvalidFormat => "Invalid format. Expected '<device>:<limit>'."@,
            IOMaxError::InvalidDevice => "Invalid device specified."@,
            IOMaxError::InvalidLimit => "Invalid limit. The limit must be a positive number."@,
        }
    }

    pub fn message(&self) -> (r: String)
        ensures
            r@ == self.message_text(),
    {
        match *self {
            IOMaxError::InvalidFormat => String::from_str(
                "Invalid format. Expected '<device>:<limit>'.",
            ),
            IOMaxError::InvalidDevice => String::from_str("Invalid device specified."),
            IOMaxError::InvalidLimit => String::from_str(
                "Invalid limit. The limit must be a positive number.",
            ),
        }
    }
}

/// How many times `c` occurs in `s`.
pub open spec fn count_char(s: Seq<char>, c: char) -> nat
    decreases s.len(),
{
    if s.len() == 0 {
        0
    } else {
        count_char(s.drop_last(), c) + if s.last() == c {
            1nat
        } else {
            0nat
        }
    }
}

/// Index of the first occurrence of `c` in `s`; `s.len()` when absent.
pub open spec fn first_char(s: Seq<char>, c: char) -> int
    decreases s.len(),
{
    if s.len() == 0 {
        0
    } else if s[0] == c {
        0
    } else {
        1 + first_char(s.drop_first(), c)
    }
}

pub proof fn lemma_first_char_found(s: Seq<char>, c: char, i: int)
    requires
        0 <= i < s.len(),
        s[i] == c,
        forall|j: int| 0 <= j < i ==> s[j] != c,
    ensures
        first_char(s, c) == i,
    decreases i,
{
    if i > 0 {
        let t = s.drop_first();
        assert(forall|j: int| 0 <= j < i - 1 ==> t[j] == s[j + 1]);
        lemma_first_char_found(t, c, i - 1);
    }
}

/// The text before the first colon.
pub open spec fn device_part(s: Seq<char>) -> Seq<char> {
    s.subrange(0, first_char(s, ':'))
}

/// The text after the first colon.
pub open spec fn limit_part(s: Seq<char>) -> Seq<char> {
    s.subrange(first_char(s, ':') + 1, s.len() as int)
}

/// The numeric value of the limit field.
pub open spec fn limit_value(s: Seq<char>) -> int {
    dec_val(u64_digit_part(limit_part(s)))
}

/// A resolved device identifier: the trimmed descriptor contents, which
/// are nonempty. Nothing further is read into them.
pub open spec fn valid_identifier(id: Seq<char>) -> bool {
    id.len() > 0
}

/// A serialized limit entry: `"<identifier> <limit>"`, the token form the
/// kernel's I/O limit interface accepts for one (device, metric) pair.
pub open spec fn entry_text(id: Seq<char>, n: int) -> Seq<char> {
    id + seq![' '] + dec_str(n as nat)
}

/// The disk-independent verdict of one entry: its format, and — although
/// the device lookup stands between them at run time — its limit numeral.
/// `Some(e)` guarantees the entry fails, with `e` or with the device error
/// that may preempt a bad limit; `None` means only the device lookup can
/// fail it.
pub open spec fn pure_entry_error(s: Seq<char>) -> Option<IOMaxError> {
    if count_char(s, ':') != 1 {
        Some(IOMaxError::InvalidFormat)
    } else if !is_u64_numeral(limit_part(s)) {
        Some(IOMaxError::InvalidLimit)
    } else {
        None
    }
}

pub open spec fn opt_pure_error(o: Option<String>) -> Option<IOMaxError> {
    match o {
        Some(s) => pure_entry_error(s@),
        None => None,
    }
}

/// The first input, in the order `build` checks them, whose pure checks
/// fail.
pub open spec fn first_pure_error(
    o1: Option<String>,
    o2: Option<String>,
    o3: Option<String>,
    o4: Option<String>,
) -> Option<IOMaxError> {
    if opt_pure_error(o1) is Some {
        opt_pure_error(o1)
    } else if opt_pure_error(o2) is Some {
        opt_pure_error(o2)
    } else if opt_pure_error(o3) is Some {
        opt_pure_error(o3)
    } else {
        opt_pure_error(o4)
    }
}

/// Whether error `e` is a possible verdict for present input `o` under
/// the check order format, device, limit: the format error is exact and
/// disk-independent; once the format passes, the device lookup may fail
/// whatever the limit holds; the limit error needs a malformed limit and
/// a device that resolved.
pub open spec fn err_matches(o: Option<String>, e: IOMaxError) -> bool {
    o matches Some(s) && ((count_char(s@, ':') != 1 && e == IOMaxError::InvalidFormat) || (
    count_char(s@, ':') == 1 && e == IOMaxError::InvalidDevice) || (count_char(s@, ':') == 1
        && !is_u64_numeral(limit_part(s@)) && e == IOMaxError::InvalidLimit))
}

/// Whether error `e` is a possible verdict of validating the four inputs
/// in order: some input can yield `e` while every input checked before it
/// passes its pure checks.
pub open spec fn build_err_possible(
    o1: Option<String>,
    o2: Option<String>,
    o3: Option<String>,
    o4: Option<String>,
    e: IOMaxError,
) -> bool {
    ||| err_matches(o1, e)
    ||| (opt_pure_error(o1) is None && err_matches(o2, e))
    ||| (opt_pure_error(o1) is None && opt_pure_error(o2) is None && err_matches(o3, e))
    ||| (opt_pure_error(o1) is None && opt_pure_error(o2) is None && opt_pure_error(o3) is None
        && err_matches(o4, e))
}

/// ASCII whitespace, the bytes trimming removes.
pub open spec fn is_space_byte(b: u8) -> bool {
    b == 32 || (9 <= b <= 13)
}

pub open spec fn trim_front(b: Seq<u8>) -> Seq<u8>
    decreases b.len(),
{
    if b.len() > 0 && is_space_byte(b[0]) {
        trim_front(b.drop_first())
    } else {
        b
    }
}

pub open spec fn trim_back(b: Seq<u8>) -> Seq<u8>
    decreases b.len(),
{
    if b.len() > 0 && is_space_byte(b.last()) {
        trim_back(b.drop_last())
    } else {
        b
    }
}

/// The descriptor contents with leading and trailing whitespace removed.
pub open spec fn trimmed(b: Seq<u8>) -> Seq<u8> {
    trim_back(trim_front(b))
}

/// The path prefix a conventional device node carries.
pub open spec fn dev_prefix() -> Seq<char> {
    seq!['/', 'd', 'e', 'v', '/']
}

/// The device short name: the path with every leading `/dev/` removed, as
/// repeated prefix stripping leaves it.
pub open spec fn strip_dev(s: Seq<char>) -> Seq<char>
    decreases s.len(),
{
    if s.len() >= 5 && s.subrange(0, 5) == dev_prefix() {
        strip_dev(s.subrange(5, s.len() as int))
    } else {
        s
    }
}

/// The descriptor file consulted for a device path: the short name keyed
/// into the kernel's fixed metadata directory.
pub open spec fn descriptor_path_text(device_path: Seq<char>) -> Seq<char> {
    "/sys/block/"@ + strip_dev(device_path) + "/dev"@
}

fn is_space_u8(b: u8) -> (r: bool)
    ensures
        r == is_space_byte(b),
{
    b == 32 || (9 <= b && b <= 13)
}

fn has_dev_prefix(s: &str, pos: usize) -> (b: bool)
    requires
        pos <= s@.len(),
    ensures
        b <==> (pos + 5 <= s@.len() && s@.subrange(pos as int, pos as int + 5) == dev_prefix()),
{
    let len = s.unicode_len();
    if len - pos < 5 {
        return false;
    }
    let c0 = s.get_char(pos);
    let c1 = s.get_char(pos + 1);
    let c2 = s.get_char(pos + 2);
    let c3 = s.get_char(pos + 3);
    let c4 = s.get_char(pos + 4);
    let b = c0 == '/' && c1 == 'd' && c2 == 'e' && c3 == 'v' && c4 == '/';
    proof {
        let sub = s@.subrange(pos as int, pos as int + 5);
        assert(sub[0] == s@[pos as int]);
        assert(sub[1] == s@[pos as int + 1]);
        assert(sub[2] == s@[pos as int + 2]);
        assert(sub[3] == s@[pos as int + 3]);
        assert(sub[4] == s@[pos as int + 4]);
        if b {
            assert(sub =~= dev_prefix());
        } else {
            assert(sub != dev_prefix());
        }
    }
    b
}

/// One serialized I/O limit entry: the resolved device identifier and the
/// validated limit value.
#[derive(Debug)]
struct IoEntry {
    id: String,
    limit: u64,
}

/// Per-device I/O limits for the four (direction, metric) pairs the
/// kernel's `io.max` interface accepts.
#[derive(Debug)]
pub struct IOMax {
    device_read_bps: Option<IoEntry>,
    device_write_bps: Option<IoEntry>,
    device_read_iops: Option<IoEntry>,
    device_write_iops: Option<IoEntry>,
}

impl IOMax {
    pub closed spec fn spec_read_bps(&self) -> Option<(Seq<char>, u64)> {
        match self.device_read_bps {
            Some(e) => Some((e.id@, e.limit)),
            None => None,
        }
    }

    pub closed spec fn spec_write_bps(&self) -> Option<(Seq<char>, u64)> {
        match self.device_write_bps {
            Some(e) => Some((e.id@, e.limit)),
            None => None,
        }
    }

    pub closed spec fn spec_read_iops(&self) -> Option<(Seq<char>, u64)> {
        match self.device_read_iops {
            Some(e) => Some((e.id@, e.limit)),
            None => None,
        }
    }

    pub closed spec fn spec_write_iops(&self) -> Option<(Seq<char>, u64)> {
        match self.device_write_iops {
            Some(e) => Some((e.id@, e.limit)),
            None => None,
        }
    }

    /// How a validated field relates to the raw input it came from.
    pub open spec fn field_from(input: Option<String>, p: Option<(Seq<char>, u64)>) -> bool {
        match input {
            None => p is None,
            Some(s) => p matches Some(q) && pure_entry_error(s@) is None && valid_identifier(q.0)
                && q.1 == limit_value(s@),
        }
    }

    /// Builds the path of the per-device descriptor file consulted for a
    /// device path: the conventional `/dev/` prefix is stripped
    /// (repeatedly, as prefix trimming goes) to obtain the short name,
    /// which keys into the kernel's fixed metadata directory.
    pub fn descriptor_path(device_path: &str) -> (r: String)
        ensures
            r@ == descriptor_path_text(device_path@),
    {
        let dlen = device_path.unicode_len();
        let mut pos: usize = 0;
        proof {
            assert(device_path@.subrange(0, dlen as int) =~= device_path@);
        }
        while has_dev_prefix(device_path, pos)
            invariant
                pos <= device_path@.len(),
                dlen == device_path@.len(),
                strip_dev(device_path@) == strip_dev(
                    device_path@.subrange(pos as int, dlen as int),
                ),
            decreases dlen - pos,
        {
            proof {
                let v = device_path@;
                let sub = v.subrange(pos as int, dlen as int);
                assert(sub.subrange(0, 5) =~= v.subrange(pos as int, pos as int + 5));
                assert(sub.subrange(5, sub.len() as int) =~= v.subrange(
                    pos as int + 5,
                    dlen as int,
                ));
            }
            pos = pos + 5;
        }
        proof {
            let v = device_path@;
            let sub = v.subrange(pos as int, dlen as int);
            if sub.len() >= 5 {
                assert(sub.subrange(0, 5) =~= v.subrange(pos as int, pos as int + 5));
            }
            assert(strip_dev(sub) == sub);
        }
        let short = device_path.substring_char(pos, dlen);
        let mut path = String::new();
        path.append("/sys/block/");
        path.append(short);
        path.append("/dev");
        path
    }

    /// Resolves a block-device path to the kernel's major:minor identifier.
    ///
    /// The per-device descriptor file at `descriptor_path` is read and its
    /// trimmed contents are returned verbatim, with no further
    /// interpretation. The lookup fails — always with the unknown-device
    /// error — when the descriptor is missing, cannot be read as text, or
    /// is empty after trimming. What is on disk decides success, so the
    /// contract promises only the shape of the result;
    /// `identifier_from_descriptor` is exact about the pure step.
    pub fn device_path_to_major_minor(device_path: &str) -> (r: Result<String, IOMaxError>)
        ensures
            r matches Ok(id) ==> valid_identifier(id@),
            r is Err ==> r == Err::<String, IOMaxError>(IOMaxError::InvalidDevice),
    {
        let path = Self::descriptor_path(device_path);
        let data = match read_file_bytes(path.as_str()) {
            Some(d) => d,
            None => {
                return Err(IOMaxError::InvalidDevice);
            },
        };
        match Self::identifier_from_descriptor(&data) {
            Ok(id) => {
                proof {
                    assert(decode_utf8(trimmed(data@)).len() > 0);
                }
                Ok(id)
            },
            Err(e) => Err(e),
        }
    }

    /// The pure half of device resolution: what the resolver returns once
    /// the descriptor bytes are in hand. The identifier is the descriptor
    /// with surrounding whitespace trimmed, returned verbatim and not
    /// interpreted further; a descriptor that is empty after trimming, or
    /// whose bytes cannot be read as text, is no known device. The result
    /// is a function of the bytes alone.
    pub fn identifier_from_descriptor(data: &Vec<u8>) -> (r: Result<String, IOMaxError>)
        ensures
            r is Ok <==> (trimmed(data@).len() > 0 && valid_utf8(trimmed(data@))),
            r matches Ok(id) ==> id@ == decode_utf8(trimmed(data@)),
            r is Err ==> r == Err::<String, IOMaxError>(IOMaxError::InvalidDevice),
    {
        let n = data.len();
        let mut lo: usize = 0;
        proof {
            assert(data@.subrange(0, n as int) =~= data@);
        }
        while lo < n && is_space_u8(data[lo])
            invariant
                lo <= n,
                n == data@.len(),
                trim_front(data@) == trim_front(data@.subrange(lo as int, n as int)),
            decreases n - lo,
        {
            proof {
                let sub = data@.subrange(lo as int, n as int);
                assert(sub[0] == data@[lo as int]);
                assert(sub.drop_first() =~= data@.subrange(lo as int + 1, n as int));
            }
            lo = lo + 1;
        }
        proof {
            assert(trim_front(data@) == data@.subrange(lo as int, n as int));
        }
        let mut hi: usize = n;
        while hi > lo && is_space_u8(data[hi - 1])
            invariant
                lo <= hi <= n,
                n == data@.len(),
                trim_front(data@) == data@.subrange(lo as int, n as int),
                trim_back(data@.subrange(lo as int, n as int)) == trim_back(
                    data@.subrange(lo as int, hi as int),
                ),
            decreases hi,
        {
            proof {
                let sub = data@.subrange(lo as int, hi as int);
                assert(sub.last() == data@[hi as int - 1]);
                assert(sub.drop_last() =~= data@.subrange(lo as int, hi as int - 1));
            }
            hi = hi - 1;
        }
        proof {
            assert(trim_back(data@.subrange(lo as int, hi as int)) == data@.subrange(
                lo as int,
                hi as int,
            ));
            assert(trimmed(data@) == data@.subrange(lo as int, hi as int));
        }
        if hi == lo {
            return Err(IOMaxError::InvalidDevice);
        }
        let t = slice_subrange(data.as_slice(), lo, hi);
        match string_from_utf8(t) {
            Some(id) => Ok(id),
            None => Err(IOMaxError::InvalidDevice),
        }
    }

    /// Validates one raw entry in the taxonomy's order: the
    /// `<device>:<limit>` split, then the device lookup on disk, then the
    /// limit numeral.
    fn validate_entry(s: &str) -> (r: Result<IoEntry, IOMaxError>)
        ensures
            r matches Ok(en) ==> pure_entry_error(s@) is None && valid_identifier(en.id@)
                && en.limit == limit_value(s@),
            (count_char(s@, ':') != 1) <==> r == Err::<IoEntry, IOMaxError>(
                IOMaxError::InvalidFormat,
            ),
            r == Err::<IoEntry, IOMaxError>(IOMaxError::InvalidLimit) ==> count_char(s@, ':')
                == 1 && !is_u64_numeral(limit_part(s@)),
            r == Err::<IoEntry, IOMaxError>(IOMaxError::InvalidDevice) ==> count_char(s@, ':')
                == 1,
            pure_entry_error(s@) is Some ==> r is Err,
            pure_entry_error(s@) is None ==> (r is Ok || r == Err::<IoEntry, IOMaxError>(
                IOMaxError::InvalidDevice,
            )),
    {
        let len = s.unicode_len();
        let mut i: usize = 0;
        let mut cnt: usize = 0;
        let mut fst: usize = 0;
        while i < len
            invariant
                i <= len,
                cnt <= i,
                len == s@.len(),
                cnt == count_char(s@.subrange(0, i as int), ':'),
                cnt > 0 ==> fst < i && s@[fst as int] == ':' && (forall|j: int|
                    0 <= j < fst ==> s@[j] != ':'),
                cnt == 0 ==> (forall|j: int| 0 <= j < i ==> s@[j] != ':'),
            decreases len - i,
        {
            let c = s.get_char(i);
            proof {
                assert(s@.subrange(0, i as int + 1).drop_last() =~= s@.subrange(0, i as int));
            }
            if c == ':' {
                if cnt == 0 {
                    fst = i;
                }
                cnt = cnt + 1;
            }
            i = i + 1;
        }
        proof {
            assert(s@.subrange(0, len as int) =~= s@);
        }
        if cnt != 1 {
            return Err(IOMaxError::InvalidFormat);
        }
        proof {
            lemma_first_char_found(s@, ':', fst as int);
        }
        let device = s.substring_char(0, fst);
        let id = match Self::device_path_to_major_minor(device) {
            Ok(id) => id,
            Err(e) => {
                return Err(e);
            },
        };
        let limit_str = s.substring_char(fst + 1, len);
        let limit = match parse_u64(limit_str) {
            Some(v) => v,
            None => {
                return Err(IOMaxError::InvalidLimit);
            },
        };
        Ok(IoEntry { id, limit })
    }

    /// The serialized form of one entry: `"<identifier> <limit>"`.
    fn entry_content(e: &IoEntry) -> (r: String)
        ensures
            r@ == entry_text(e.id@, e.limit as int),
    {
        let mut t = e.id.clone();
        push_char(&mut t, ' ');
        let num = u64_to_string(e.limit);
        t.append(num.as_str());
        proof {
            assert(t@ =~= entry_text(e.id@, e.limit as int));
        }
        t
    }

    /// Validates one `"<device_path>:<limit>"` entry — format, then
    /// device, then limit — and serializes it as the kernel's token form.
    pub fn validate_and_transform(s: &str) -> (r: Result<String, IOMaxError>)
        ensures
            r matches Ok(t) ==> pure_entry_error(s@) is None && (exists|id: Seq<char>|
                valid_identifier(id) && t@ == entry_text(id, limit_value(s@))),
            (count_char(s@, ':') != 1) <==> r == Err::<String, IOMaxError>(
                IOMaxError::InvalidFormat,
            ),
            r == Err::<String, IOMaxError>(IOMaxError::InvalidLimit) ==> count_char(s@, ':') == 1
                && !is_u64_numeral(limit_part(s@)),
            r == Err::<String, IOMaxError>(IOMaxError::InvalidDevice) ==> count_char(s@, ':')
                == 1,
            pure_entry_error(s@) is Some ==> r is Err,
            pure_entry_error(s@) is None ==> (r is Ok || r == Err::<String, IOMaxError>(
                IOMaxError::InvalidDevice,
            )),
    {
        match Self::validate_entry(s) {
            Ok(en) => {
                let t = Self::entry_content(&en);
                proof {
                    let idv = en.id@;
                    assert(valid_identifier(idv) && t@ == entry_text(idv, limit_value(s@)));
                }
                Ok(t)
            },
            Err(e) => Err(e),
        }
    }

    /// Validates the four optional raw entries in a fixed order, stopping
    /// at the first failure.
    pub fn build(
        device_read_bps: Option<String>,
        device_write_bps: Option<String>,
        device_read_iops: Option<String>,
        device_write_iops: Option<String>,
    ) -> (r: Result<Self, IOMaxError>)
        ensures
            r matches Ok(m) ==> Self::field_from(device_read_bps, m.spec_read_bps())
                && Self::field_from(device_write_bps, m.spec_write_bps()) && Self::field_from(
                device_read_iops,
                m.spec_read_iops(),
            ) && Self::field_from(device_write_iops, m.spec_write_iops()),
            first_pure_error(
                device_read_bps,
                device_write_bps,
                device_read_iops,
                device_write_iops,
            ) is Some ==> r is Err,
            r matches Err(e) ==> (e != IOMaxError::InvalidDevice ==> first_pure_error(
                device_read_bps,
                device_write_bps,
                device_read_iops,
                device_write_iops,
            ) == Some(e)),
            r matches Err(e) ==> build_err_possible(
                device_read_bps,
                device_write_bps,
                device_read_iops,
                device_write_iops,
                e,
            ),
    {
        let read_bps = match device_read_bps {
            None => None,
            Some(s) => match Self::validate_entry(s.as_str()) {
                Ok(e) => Some(e),
                Err(err) => {
                    return Err(err);
                },
            },
        };
        let write_bps = match device_write_bps {
            None => None,
            Some(s) => match Self::validate_entry(s.as_str()) {
                Ok(e) => Some(e),
                Err(err) => {
                    return Err(err);
                },
            },
        };
        let read_iops = match device_read_iops {
            None => None,
            Some(s) => match Self::validate_entry(s.as_str()) {
                Ok(e) => Some(e),
                Err(err) => {
                    return Err(err);
                },
            },
        };
        let write_iops = match device_write_iops {
            None => None,
            Some(s) => match Self::validate_entry(s.as_str()) {
                Ok(e) => Some(e),
                Err(err) => {
                    return Err(err);
                },
            },
        };
        Ok(IOMax {
            device_read_bps: read_bps,
            device_write_bps: write_bps,
            device_read_iops: read_iops,
            device_write_iops: write_iops,
        })
    }

    pub fn device_read_bps(&self) -> (r: Option<String>)
        ensures
            match self.spec_read_bps() {
                Some(p) => r matches Some(t) && t@ == entry_text(p.0, p.1 as int),
                None => r is None,
            },
    {
        match &self.device_read_bps {
            Some(e) => Some(Self::entry_content(e)),
            None => None,
        }
    }

    pub fn device_write_bps(&self) -> (r: Option<String>)
        ensures
            match self.spec_write_bps() {
                Some(p) => r matches Some(t) && t@ == entry_text(p.0, p.1 as int),
                None => r is None,
            },
    {
        match &self.device_write_bps {
            Some(e) => Some(Self::entry_content(e)),
            None => None,
        }
    }

    pub fn device_read_iops(&self) -> (r: Option<String>)
        ensures
            match self.spec_read_iops() {
                Some(p) => r matches Some(t) && t@ == entry_text(p.0, p.1 as int),
                None => r is None,
            },
    {
        match &self.device_read_iops {
            Some(e) => Some(Self::entry_content(e)),
            None => None,
        }
    }

    pub fn device_write_iops(&self) -> (r: Option<String>)
        ensures
            match self.spec_write_iops() {
                Some(p) => r matches Some(t) && t@ == entry_text(p.0, p.1 as int),
                None => r is None,
            },
    {
        match &self.device_write_iops {
            Some(e) => Some(Self::entry_content(e)),
            None => None,
        }
    }

    /// One `io.max` line for one configured entry:
    /// `"<identifier> <key>=<limit>"`.
    pub open spec fn line_text(p: Option<(Seq<char>, u64)>, key: Seq<char>) -> Seq<Seq<char>> {
        match p {
            None => seq![],
            Some(q) => seq![q.0 + seq![' '] + key + seq!['='] + dec_str(q.1 as nat)],
        }
    }

    /// The `io.max` lines of every configured entry, in the fixed key
    /// order rbps, wbps, riops, wiops.
    pub open spec fn lines_text_spec(&self) -> Seq<Seq<char>> {
        Self::line_text(self.spec_read_bps(), "rbps"@) + Self::line_text(
            self.spec_write_bps(),
            "wbps"@,
        ) + Self::line_text(self.spec_read_iops(), "riops"@) + Self::line_text(
            self.spec_write_iops(),
            "wiops"@,
        )
    }

    fn io_line(e: &IoEntry, key: &str) -> (r: String)
        ensures
            r@ == e.id@ + seq![' '] + key@ + seq!['='] + dec_str(e.limit as nat),
    {
        let mut t = e.id.clone();
        push_char(&mut t, ' ');
        t.append(key);
        push_char(&mut t, '=');
        let num = u64_to_string(e.limit);
        t.append(num.as_str());
        proof {
            assert(t@ =~= e.id@ + seq![' '] + key@ + seq!['='] + dec_str(e.limit as nat));
        }
        t
    }

    /// Serializes every configured entry as one `io.max` line each.
    pub fn content_lines(&self) -> (r: Vec<String>)
        ensures
            r@.map_values(|t: String| t@) == self.lines_text_spec(),
    {
        let mut v: Vec<String> = Vec::new();
        if let Some(e) = &self.device_read_bps {
            v.push(Self::io_line(e, "rbps"));
        }
        if let Some(e) = &self.device_write_bps {
            v.push(Self::io_line(e, "wbps"));
        }
        if let Some(e) = &self.device_read_iops {
            v.push(Self::io_line(e, "riops"));
        }
        if let Some(e) = &self.device_write_iops {
            v.push(Self::io_line(e, "wiops"));
        }
        proof {
            assert(v@.map_values(|t: String| t@) =~= self.lines_text_spec());
        }
        v
    }
}

impl Default for IOMax {
    /// No I/O limit configured in any direction.
    fn default() -> (r: Self)
        ensures
            r.spec_read_bps() is None,
            r.spec_write_bps() is None,
            r.spec_read_iops() is None,
            r.spec_write_iops() is None,
    {
        IOMax {
            device_read_bps: None,
            device_write_bps: None,
            device_read_iops: None,
            device_write_iops: None,
        }
    }
}

} // verus!
