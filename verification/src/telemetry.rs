//! Telemetry over kernel memory counters. The counter sources are
//! line-oriented text: a label, whitespace, and a decimal value. The caller
//! reads each source and hands the raw bytes here; parsing, field matching
//! and the swap-activity delta math are verified. A missing field, an
//! unreadable source or a malformed line degrades to a zero-valued counter
//! rather than an error, so the display loop never halts on telemetry.

use vstd::prelude::*;

verus! {

/// ASCII whitespace, as the tokenizer of the counter lines understands it.
pub open spec fn is_ws(b: u8) -> bool {
    b == 32 || b == 9 || b == 10 || b == 12 || b == 13
}

/// An ASCII decimal digit.
pub open spec fn is_digit(b: u8) -> bool {
    48 <= b <= 57
}

/// Every byte of the sequence is a decimal digit.
pub open spec fn all_digits(s: Seq<u8>) -> bool {
    forall|i: int| 0 <= i < s.len() ==> is_digit(#[trigger] s[i])
}

/// The value of a sequence of decimal digits.
pub open spec fn digits_val(s: Seq<u8>) -> nat
    decreases s.len(),
{
    if s.len() == 0 {
        0
    } else {
        digits_val(s.drop_last()) * 10 + ((s.last() - 48) as nat)
    }
}

/// A token with at most one leading plus sign removed: the digit run that
/// must carry the value.
pub open spec fn num_body(t: Seq<u8>) -> Seq<u8> {
    if t.len() > 0 && t[0] == 43 {
        t.drop_first()
    } else {
        t
    }
}

/// What a counter token is worth: an optional plus sign followed by a
/// non-empty digit run that fits in 64 bits is its decimal value, anything
/// else defaults to zero.
pub open spec fn token_u64(t: Seq<u8>) -> u64 {
    let b = num_body(t);
    if b.len() > 0 && all_digits(b) && digits_val(b) <= u64::MAX {
        digits_val(b) as u64
    } else {
        0
    }
}

/// The first position at or after `i` that does not hold whitespace.
pub open spec fn ws_end(s: Seq<u8>, i: int) -> int
    decreases s.len() - i,
        when i <= s.len()
{
    if 0 <= i < s.len() && is_ws(s[i]) {
        ws_end(s, i + 1)
    } else {
        i
    }
}

/// The first position at or after `i` that holds whitespace (or the end).
pub open spec fn token_end(s: Seq<u8>, i: int) -> int
    decreases s.len() - i,
        when i <= s.len()
{
    if 0 <= i < s.len() && !is_ws(s[i]) {
        token_end(s, i + 1)
    } else {
        i
    }
}

/// The value of a counter line's second whitespace-separated token (the
/// numeric field that follows the label), zero when the line has no second
/// token or the token is not a plain decimal number.
pub open spec fn second_token_value(s: Seq<u8>) -> u64 {
    let a = ws_end(s, 0);
    let b = token_end(s, a);
    let c = ws_end(s, b);
    let d = token_end(s, c);
    token_u64(s.subrange(c, d))
}

/// The value of everything after the first `plen` bytes of the line, for
/// sources whose label is followed by the bare value and nothing else.
pub open spec fn rest_value(s: Seq<u8>, plen: int) -> u64 {
    token_u64(s.subrange(plen, s.len() as int))
}

fn ws_byte(b: u8) -> (r: bool)
    ensures
        r == is_ws(b),
{
    b == 32 || b == 9 || b == 10 || b == 12 || b == 13
}

fn skip_ws(line: &Vec<u8>, from: usize) -> (r: usize)
    requires
        from <= line@.len(),
    ensures
        r == ws_end(line@, from as int),
        from <= r <= line@.len(),
{
    let mut i = from;
    while i < line.len() && ws_byte(line[i])
        invariant
            from <= i <= line@.len(),
            ws_end(line@, from as int) == ws_end(line@, i as int),
        decreases line@.len() - i,
    {
        i = i + 1;
    }
    i
}

fn skip_token(line: &Vec<u8>, from: usize) -> (r: usize)
    requires
        from <= line@.len(),
    ensures
        r == token_end(line@, from as int),
        from <= r <= line@.len(),
{
    let mut i = from;
    while i < line.len() && !ws_byte(line[i])
        invariant
            from <= i <= line@.len(),
            token_end(line@, from as int) == token_end(line@, i as int),
        decreases line@.len() - i,
    {
        i = i + 1;
    }
    i
}

/// A digit run keeps at least its prefix's value when digits are appended.
proof fn lemma_digits_val_prefix_le(s: Seq<u8>, k: int)
    requires
        0 <= k <= s.len(),
        forall|i: int| k <= i < s.len() ==> is_digit(#[trigger] s[i]),
    ensures
        digits_val(s.subrange(0, k)) <= digits_val(s),
    decreases s.len() - k,
{
    if k == s.len() {
        assert(s.subrange(0, k) =~= s);
    } else {
        let s2 = s.drop_last();
        assert(s.subrange(0, k) =~= s2.subrange(0, k));
        lemma_digits_val_prefix_le(s2, k);
    }
}

/// Parse the token at `line[start..end]` exactly as `token_u64` values it.
fn token_value(line: &Vec<u8>, start: usize, end: usize) -> (r: u64)
    requires
        start <= end <= line@.len(),
    ensures
        r == token_u64(line@.subrange(start as int, end as int)),
{
    let ghost t = line@.subrange(start as int, end as int);
    let mut s = start;
    if s < end && line[s] == 43 {
        // One leading plus sign is part of a well-formed number.
        s = s + 1;
    }
    let ghost b = line@.subrange(s as int, end as int);
    proof {
        assert(b =~= num_body(t));
    }
    if s == end {
        // Nothing after the sign (or an empty token): no number.
        return 0;
    }
    let mut acc: u64 = 0;
    let mut i = s;
    while i < end
        invariant
            start <= s <= i <= end <= line@.len(),
            t == line@.subrange(start as int, end as int),
            b == num_body(t),
            b == line@.subrange(s as int, end as int),
            b.len() == end - s,
            forall|j: int| 0 <= j < i - s ==> is_digit(#[trigger] b[j]),
            acc == digits_val(b.subrange(0, i - s)),
        decreases end - i,
    {
        let byte = line[i];
        if byte < 48 || byte > 57 {
            // A non-digit byte: the token is not a plain number.
            assert(!all_digits(b)) by {
                assert(!is_digit(b[i - s]));
            }
            return 0;
        }
        let d = (byte - 48) as u64;
        let ghost pre = b.subrange(0, i - s);
        let ghost pre2 = b.subrange(0, i + 1 - s);
        proof {
            assert(pre2.drop_last() =~= pre);
            assert(pre2.last() == b[i - s]);
        }
        if acc > (u64::MAX - d) / 10 {
            // The value no longer fits in 64 bits; it defaults to zero.
            proof {
                assert(digits_val(pre2) == digits_val(pre) * 10 + (byte - 48));
                assert(acc * 10 + d > u64::MAX) by (nonlinear_arith)
                    requires
                        acc > (u64::MAX - d) / 10,
                        0 <= d <= 9,
                        acc <= u64::MAX,
                ;
                if all_digits(b) {
                    lemma_digits_val_prefix_le(b, i + 1 - s);
                }
            }
            return 0;
        }
        proof {
            assert(acc * 10 + d <= u64::MAX) by (nonlinear_arith)
                requires
                    acc <= (u64::MAX - d) / 10,
                    0 <= d <= 9,
            ;
            assert(digits_val(pre2) == digits_val(pre) * 10 + (byte - 48));
        }
        acc = acc * 10 + d;
        i = i + 1;
    }
    proof {
        assert(b.subrange(0, (end - s) as int) =~= b);
        assert(all_digits(b));
    }
    acc
}

/// The value of the line's second whitespace-separated token.
pub fn line_second_value(line: &Vec<u8>) -> (r: u64)
    ensures
        r == second_token_value(line@),
{
    let a = skip_ws(line, 0);
    let b = skip_token(line, a);
    let c = skip_ws(line, b);
    let d = skip_token(line, c);
    token_value(line, c, d)
}

/// One trailing carriage return is stripped when a newline closes a line.
pub open spec fn strip_cr(l: Seq<u8>) -> Seq<u8> {
    if l.len() > 0 && l.last() == 13 {
        l.drop_last()
    } else {
        l
    }
}

/// Splitting byte text into lines, newline-terminated or final, with the
/// carriage return of a CRLF ending stripped; `cur` is the open line.
pub open spec fn split_rec(s: Seq<u8>, cur: Seq<u8>) -> Seq<Seq<u8>>
    decreases s.len(),
{
    if s.len() == 0 {
        if cur.len() == 0 {
            Seq::empty()
        } else {
            seq![cur]
        }
    } else if s.first() == 10 {
        seq![strip_cr(cur)] + split_rec(s.drop_first(), Seq::empty())
    } else {
        split_rec(s.drop_first(), cur.push(s.first()))
    }
}

/// The lines of a counter source.
pub open spec fn spec_lines(s: Seq<u8>) -> Seq<Seq<u8>> {
    split_rec(s, Seq::empty())
}

/// The byte views of a vector of lines.
pub open spec fn views(ls: Seq<Vec<u8>>) -> Seq<Seq<u8>> {
    ls.map_values(|l: Vec<u8>| l@)
}

/// Split a counter source into its lines.
pub fn split_lines(data: &Vec<u8>) -> (r: Vec<Vec<u8>>)
    ensures
        views(r@) == spec_lines(data@),
{
    let mut out: Vec<Vec<u8>> = Vec::new();
    let mut cur: Vec<u8> = Vec::new();
    let mut i: usize = 0;
    proof {
        assert(data@.skip(0) =~= data@);
        assert(views(out@) =~= Seq::<Seq<u8>>::empty());
        assert(views(out@) + split_rec(data@, Seq::empty()) =~= split_rec(data@, Seq::empty()));
    }
    while i < data.len()
        invariant
            i <= data@.len(),
            spec_lines(data@) == views(out@) + split_rec(data@.skip(i as int), cur@),
        decreases data@.len() - i,
    {
        let ghost rest = data@.skip(i as int);
        proof {
            assert(rest.len() > 0 && rest.first() == data@[i as int]);
            assert(rest.drop_first() =~= data@.skip(i as int + 1));
        }
        let b = data[i];
        if b == 10 {
            let ghost cur0 = cur@;
            if cur.len() > 0 && cur[cur.len() - 1] == 13 {
                cur.pop();
                proof {
                    assert(cur@ =~= strip_cr(cur0));
                }
            }
            proof {
                assert(cur@ == strip_cr(cur0));
            }
            out.push(cur);
            cur = Vec::new();
            proof {
                assert(views(out@) =~= views(out@.drop_last()) + seq![strip_cr(cur0)]);
                assert(views(out@.drop_last()) + seq![strip_cr(cur0)] + split_rec(
                    data@.skip(i as int + 1),
                    Seq::empty(),
                ) =~= views(out@.drop_last()) + (seq![strip_cr(cur0)] + split_rec(
                    data@.skip(i as int + 1),
                    Seq::empty(),
                )));
            }
        } else {
            cur.push(b);
        }
        i = i + 1;
    }
    proof {
        assert(data@.skip(i as int) =~= Seq::<u8>::empty());
    }
    if cur.len() > 0 {
        out.push(cur);
        proof {
            assert(views(out@) =~= views(out@.drop_last()) + seq![out@.last()@]);
        }
    }
    proof {
        assert(views(out@) =~= spec_lines(data@));
    }
    out
}

/// `p` is a literal prefix of `l`.
pub open spec fn spec_has_prefix(l: Seq<u8>, p: Seq<u8>) -> bool {
    p.len() <= l.len() && l.subrange(0, p.len() as int) =~= p
}

fn has_prefix(line: &Vec<u8>, p: &Vec<u8>) -> (r: bool)
    ensures
        r == spec_has_prefix(line@, p@),
{
    if p.len() > line.len() {
        assert(!spec_has_prefix(line@, p@));
        return false;
    }
    let mut i: usize = 0;
    while i < p.len()
        invariant
            0 <= i <= p@.len(),
            p@.len() <= line@.len(),
            forall|j: int| 0 <= j < i ==> line@[j] == p@[j],
        decreases p@.len() - i,
    {
        if line[i] != p[i] {
            assert(line@.subrange(0, p@.len() as int)[i as int] != p@[i as int]);
            return false;
        }
        i = i + 1;
    }
    assert(line@.subrange(0, p@.len() as int) =~= p@);
    true
}

/// The label of the system-wide locked-page total ("Mlocked:").
pub open spec fn lbl_mlocked() -> Seq<u8> {
    seq![77u8, 108u8, 111u8, 99u8, 107u8, 101u8, 100u8, 58u8]
}

/// The label of the system-wide swap capacity ("SwapTotal:").
pub open spec fn lbl_swap_total() -> Seq<u8> {
    seq![83u8, 119u8, 97u8, 112u8, 84u8, 111u8, 116u8, 97u8, 108u8, 58u8]
}

/// The label of the free swap amount ("SwapFree:").
pub open spec fn lbl_swap_free() -> Seq<u8> {
    seq![83u8, 119u8, 97u8, 112u8, 70u8, 114u8, 101u8, 101u8, 58u8]
}

/// The label of the anonymous-resident total ("AnonPages:").
pub open spec fn lbl_anon_pages() -> Seq<u8> {
    seq![65u8, 110u8, 111u8, 110u8, 80u8, 97u8, 103u8, 101u8, 115u8, 58u8]
}

/// The label of the cumulative swapped-in page count ("pswpin "), with the
/// separating space, since this source writes no colon.
pub open spec fn lbl_pswpin() -> Seq<u8> {
    seq![112u8, 115u8, 119u8, 112u8, 105u8, 110u8, 32u8]
}

/// The label of the cumulative swapped-out page count ("pswpout ").
pub open spec fn lbl_pswpout() -> Seq<u8> {
    seq![112u8, 115u8, 119u8, 112u8, 111u8, 117u8, 116u8, 32u8]
}

/// The label of the process's locked pages ("VmLck:").
pub open spec fn lbl_vm_lck() -> Seq<u8> {
    seq![86u8, 109u8, 76u8, 99u8, 107u8, 58u8]
}

/// The label of the process's resident anonymous pages ("RssAnon:").
pub open spec fn lbl_rss_anon() -> Seq<u8> {
    seq![82u8, 115u8, 115u8, 65u8, 110u8, 111u8, 110u8, 58u8]
}

/// The label of the process's swapped-out pages ("VmSwap:").
pub open spec fn lbl_vm_swap() -> Seq<u8> {
    seq![86u8, 109u8, 83u8, 119u8, 97u8, 112u8, 58u8]
}

/// The system-wide memory-counter fields, in kB as the source reports them.
#[derive(Clone, Copy, PartialEq, Eq, Structural, Debug)]
pub struct MemInfoVals {
    pub mlocked: u64,
    pub swap_total: u64,
    pub swap_free: u64,
    pub anon_pages: u64,
}

/// The system-wide paging-activity fields, in pages since boot.
#[derive(Clone, Copy, PartialEq, Eq, Structural, Debug)]
pub struct VmStatVals {
    pub pswpin: u64,
    pub pswpout: u64,
}

/// The process-local memory-accounting fields, in kB.
#[derive(Clone, Copy, PartialEq, Eq, Structural, Debug)]
pub struct StatusVals {
    pub vm_lck: u64,
    pub rss_anon: u64,
    pub vm_swap: u64,
}

/// One pass over the memory-counter lines: each recognized label updates
/// its field with the line's second token; the anonymous-pages line is the
/// last interesting one, so the scan stops there. A field whose label never
/// appears keeps its starting (zero) value.
pub open spec fn scan_meminfo(lines: Seq<Seq<u8>>, m: MemInfoVals) -> MemInfoVals
    decreases lines.len(),
{
    if lines.len() == 0 {
        m
    } else {
        let l = lines.first();
        if spec_has_prefix(l, lbl_mlocked()) {
            scan_meminfo(lines.drop_first(), MemInfoVals { mlocked: second_token_value(l), ..m })
        } else if spec_has_prefix(l, lbl_swap_total()) {
            scan_meminfo(lines.drop_first(), MemInfoVals { swap_total: second_token_value(l), ..m })
        } else if spec_has_prefix(l, lbl_swap_free()) {
            scan_meminfo(lines.drop_first(), MemInfoVals { swap_free: second_token_value(l), ..m })
        } else if spec_has_prefix(l, lbl_anon_pages()) {
            MemInfoVals { anon_pages: second_token_value(l), ..m }
        } else {
            scan_meminfo(lines.drop_first(), m)
        }
    }
}

/// One pass over the paging-activity lines; the swap-out line ends the
/// scan. The value is everything after the label, taken whole.
pub open spec fn scan_vmstat(lines: Seq<Seq<u8>>, v: VmStatVals) -> VmStatVals
    decreases lines.len(),
{
    if lines.len() == 0 {
        v
    } else {
        let l = lines.first();
        if spec_has_prefix(l, lbl_pswpin()) {
            scan_vmstat(
                lines.drop_first(),
                VmStatVals { pswpin: rest_value(l, lbl_pswpin().len() as int), ..v },
            )
        } else if spec_has_prefix(l, lbl_pswpout()) {
            VmStatVals { pswpout: rest_value(l, lbl_pswpout().len() as int), ..v }
        } else {
            scan_vmstat(lines.drop_first(), v)
        }
    }
}

/// One pass over the process's own accounting lines; the swap line ends
/// the scan.
pub open spec fn scan_status(lines: Seq<Seq<u8>>, v: StatusVals) -> StatusVals
    decreases lines.len(),
{
    if lines.len() == 0 {
        v
    } else {
        let l = lines.first();
        if spec_has_prefix(l, lbl_vm_lck()) {
            scan_status(lines.drop_first(), StatusVals { vm_lck: second_token_value(l), ..v })
        } else if spec_has_prefix(l, lbl_rss_anon()) {
            scan_status(lines.drop_first(), StatusVals { rss_anon: second_token_value(l), ..v })
        } else if spec_has_prefix(l, lbl_vm_swap()) {
            StatusVals { vm_swap: second_token_value(l), ..v }
        } else {
            scan_status(lines.drop_first(), v)
        }
    }
}

fn lbl_mlocked_vec() -> (r: Vec<u8>)
    ensures
        r@ == lbl_mlocked(),
{
    let mut v: Vec<u8> = Vec::new();
    v.push(77);
    v.push(108);
    v.push(111);
    v.push(99);
    v.push(107);
    v.push(101);
    v.push(100);
    v.push(58);
    assert(v@ =~= lbl_mlocked());
    v
}

fn lbl_swap_total_vec() -> (r: Vec<u8>)
    ensures
        r@ == lbl_swap_total(),
{
    let mut v: Vec<u8> = Vec::new();
    v.push(83);
    v.push(119);
    v.push(97);
    v.push(112);
    v.push(84);
    v.push(111);
    v.push(116);
    v.push(97);
    v.push(108);
    v.push(58);
    assert(v@ =~= lbl_swap_total());
    v
}

fn lbl_swap_free_vec() -> (r: Vec<u8>)
    ensures
        r@ == lbl_swap_free(),
{
    let mut v: Vec<u8> = Vec::new();
    v.push(83);
    v.push(119);
    v.push(97);
    v.push(112);
    v.push(70);
    v.push(114);
    v.push(101);
    v.push(101);
    v.push(58);
    assert(v@ =~= lbl_swap_free());
    v
}

fn lbl_anon_pages_vec() -> (r: Vec<u8>)
    ensures
        r@ == lbl_anon_pages(),
{
    let mut v: Vec<u8> = Vec::new();
    v.push(65);
    v.push(110);
    v.push(111);
    v.push(110);
    v.push(80);
    v.push(97);
    v.push(103);
    v.push(101);
    v.push(115);
    v.push(58);
    assert(v@ =~= lbl_anon_pages());
    v
}

fn lbl_pswpin_vec() -> (r: Vec<u8>)
    ensures
        r@ == lbl_pswpin(),
{
    let mut v: Vec<u8> = Vec::new();
    v.push(112);
    v.push(115);
    v.push(119);
    v.push(112);
    v.push(105);
    v.push(110);
    v.push(32);
    assert(v@ =~= lbl_pswpin());
    v
}

fn lbl_pswpout_vec() -> (r: Vec<u8>)
    ensures
        r@ == lbl_pswpout(),
{
    let mut v: Vec<u8> = Vec::new();
    v.push(112);
    v.push(115);
    v.push(119);
    v.push(112);
    v.push(111);
    v.push(117);
    v.push(116);
    v.push(32);
    assert(v@ =~= lbl_pswpout());
    v
}

fn lbl_vm_lck_vec() -> (r: Vec<u8>)
    ensures
        r@ == lbl_vm_lck(),
{
    let mut v: Vec<u8> = Vec::new();
    v.push(86);
    v.push(109);
    v.push(76);
    v.push(99);
    v.push(107);
    v.push(58);
    assert(v@ =~= lbl_vm_lck());
    v
}

fn lbl_rss_anon_vec() -> (r: Vec<u8>)
    ensures
        r@ == lbl_rss_anon(),
{
    let mut v: Vec<u8> = Vec::new();
    v.push(82);
    v.push(115);
    v.push(115);
    v.push(65);
    v.push(110);
    v.push(111);
    v.push(110);
    v.push(58);
    assert(v@ =~= lbl_rss_anon());
    v
}

fn lbl_vm_swap_vec() -> (r: Vec<u8>)
    ensures
        r@ == lbl_vm_swap(),
{
    let mut v: Vec<u8> = Vec::new();
    v.push(86);
    v.push(109);
    v.push(83);
    v.push(119);
    v.push(97);
    v.push(112);
    v.push(58);
    assert(v@ =~= lbl_vm_swap());
    v
}

/// Scan the memory-counter lines exactly as `scan_meminfo` describes.
fn scan_meminfo_lines(lines: &Vec<Vec<u8>>, init: MemInfoVals) -> (r: MemInfoVals)
    ensures
        r == scan_meminfo(views(lines@), init),
{
    let ml = lbl_mlocked_vec();
    let st = lbl_swap_total_vec();
    let sf = lbl_swap_free_vec();
    let ap = lbl_anon_pages_vec();
    let mut m = init;
    let mut i: usize = 0;
    proof {
        assert(views(lines@).skip(0) =~= views(lines@));
    }
    while i < lines.len()
        invariant
            i <= lines@.len(),
            ml@ == lbl_mlocked(),
            st@ == lbl_swap_total(),
            sf@ == lbl_swap_free(),
            ap@ == lbl_anon_pages(),
            scan_meminfo(views(lines@), init) == scan_meminfo(views(lines@).skip(i as int), m),
        decreases lines@.len() - i,
    {
        let ghost rest = views(lines@).skip(i as int);
        proof {
            assert(rest.first() == lines@[i as int]@);
            assert(rest.drop_first() =~= views(lines@).skip(i as int + 1));
        }
        let line = &lines[i];
        if has_prefix(line, &ml) {
            m.mlocked = line_second_value(line);
        } else if has_prefix(line, &st) {
            m.swap_total = line_second_value(line);
        } else if has_prefix(line, &sf) {
            m.swap_free = line_second_value(line);
        } else if has_prefix(line, &ap) {
            m.anon_pages = line_second_value(line);
            return m;
        }
        i = i + 1;
    }
    proof {
        assert(views(lines@).skip(i as int) =~= Seq::<Seq<u8>>::empty());
    }
    m
}

/// Scan the paging-activity lines exactly as `scan_vmstat` describes.
fn scan_vmstat_lines(lines: &Vec<Vec<u8>>, init: VmStatVals) -> (r: VmStatVals)
    ensures
        r == scan_vmstat(views(lines@), init),
{
    let pi = lbl_pswpin_vec();
    let po = lbl_pswpout_vec();
    let mut v = init;
    let mut i: usize = 0;
    proof {
        assert(views(lines@).skip(0) =~= views(lines@));
    }
    while i < lines.len()
        invariant
            i <= lines@.len(),
            pi@ == lbl_pswpin(),
            po@ == lbl_pswpout(),
            scan_vmstat(views(lines@), init) == scan_vmstat(views(lines@).skip(i as int), v),
        decreases lines@.len() - i,
    {
        let ghost rest = views(lines@).skip(i as int);
        proof {
            assert(rest.first() == lines@[i as int]@);
            assert(rest.drop_first() =~= views(lines@).skip(i as int + 1));
        }
        let line = &lines[i];
        if has_prefix(line, &pi) {
            v.pswpin = token_value(line, pi.len(), line.len());
        } else if has_prefix(line, &po) {
            v.pswpout = token_value(line, po.len(), line.len());
            return v;
        }
        i = i + 1;
    }
    proof {
        assert(views(lines@).skip(i as int) =~= Seq::<Seq<u8>>::empty());
    }
    v
}

/// Scan the process's accounting lines exactly as `scan_status` describes.
fn scan_status_lines(lines: &Vec<Vec<u8>>, init: StatusVals) -> (r: StatusVals)
    ensures
        r == scan_status(views(lines@), init),
{
    let lk = lbl_vm_lck_vec();
    let ra = lbl_rss_anon_vec();
    let sw = lbl_vm_swap_vec();
    let mut v = init;
    let mut i: usize = 0;
    proof {
        assert(views(lines@).skip(0) =~= views(lines@));
    }
    while i < lines.len()
        invariant
            i <= lines@.len(),
            lk@ == lbl_vm_lck(),
            ra@ == lbl_rss_anon(),
            sw@ == lbl_vm_swap(),
            scan_status(views(lines@), init) == scan_status(views(lines@).skip(i as int), v),
        decreases lines@.len() - i,
    {
        let ghost rest = views(lines@).skip(i as int);
        proof {
            assert(rest.first() == lines@[i as int]@);
            assert(rest.drop_first() =~= views(lines@).skip(i as int + 1));
        }
        let line = &lines[i];
        if has_prefix(line, &lk) {
            v.vm_lck = line_second_value(line);
        } else if has_prefix(line, &ra) {
            v.rss_anon = line_second_value(line);
        } else if has_prefix(line, &sw) {
            v.vm_swap = line_second_value(line);
            return v;
        }
        i = i + 1;
    }
    proof {
        assert(views(lines@).skip(i as int) =~= Seq::<Seq<u8>>::empty());
    }
    v
}

/// Subtraction of cumulative counters, saturating at zero: a counter that
/// appears to have decreased (a reset) yields a zero delta, never a
/// negative or wrapped one.
pub open spec fn sat_sub(a: u64, b: u64) -> u64 {
    if a >= b {
        (a - b) as u64
    } else {
        0
    }
}

/// Kilobytes to whole megabytes.
pub open spec fn kb_to_mb(kb: u64) -> u64 {
    kb / 1024
}

/// A page count scaled to whole megabytes, saturating at the 64-bit limit.
pub open spec fn pages_to_mb(pages: u64, page_size: usize) -> u64 {
    let v = ((pages as int) * (page_size as int)) / (1048576 as int);
    if v <= u64::MAX {
        v as u64
    } else {
        u64::MAX
    }
}

/// One system-wide telemetry snapshot: the memory counters, the paging
/// counters, and the swap-activity deltas against the previous snapshot.
/// Counter fields are in kB, paging fields in pages.
pub struct Proc {
    pub page_size: usize,
    pub mlocked: u64,
    pub swap_total: u64,
    pub swap_free: u64,
    pub anon_pages: u64,
    pub pswpin: u64,
    pub pswpout: u64,
    pub pswpin_delta: u64,
    pub pswpout_delta: u64,
}

/// The memory-counter fields of a snapshot.
pub open spec fn meminfo_of(p: Proc) -> MemInfoVals {
    MemInfoVals {
        mlocked: p.mlocked,
        swap_total: p.swap_total,
        swap_free: p.swap_free,
        anon_pages: p.anon_pages,
    }
}

/// The paging-activity fields of a snapshot.
pub open spec fn vmstat_of(p: Proc) -> VmStatVals {
    VmStatVals { pswpin: p.pswpin, pswpout: p.pswpout }
}

/// All memory-counter fields at their default zero.
pub open spec fn zero_meminfo() -> MemInfoVals {
    MemInfoVals { mlocked: 0, swap_total: 0, swap_free: 0, anon_pages: 0 }
}

/// Both paging-activity fields at their default zero.
pub open spec fn zero_vmstat() -> VmStatVals {
    VmStatVals { pswpin: 0, pswpout: 0 }
}

impl Proc {
    /// One telemetry sample. `meminfo` and `vmstat` hold the raw bytes of
    /// the two system-wide counter sources (empty when a source was
    /// unreadable, which leaves every field zero); `page_size` is the host
    /// page size. Every recognized field is parsed from its labelled line;
    /// a missing or malformed field stays zero. The swap-activity deltas
    /// are the increase of the cumulative counters since `prev`, zero on
    /// the first sample of a session and zero whenever a counter appears to
    /// have decreased.
    pub fn collect(
        prev: Option<&Proc>,
        meminfo: &Vec<u8>,
        vmstat: &Vec<u8>,
        page_size: usize,
    ) -> (r: Proc)
        ensures
            r.page_size == page_size,
            meminfo_of(r) == scan_meminfo(spec_lines(meminfo@), zero_meminfo()),
            vmstat_of(r) == scan_vmstat(spec_lines(vmstat@), zero_vmstat()),
            prev is None ==> r.pswpin_delta == 0 && r.pswpout_delta == 0,
            prev matches Some(p) ==> r.pswpin_delta == sat_sub(r.pswpin, p.pswpin)
                && r.pswpout_delta == sat_sub(r.pswpout, p.pswpout),
    {
        let mut proc = Proc {
            page_size,
            mlocked: 0,
            swap_total: 0,
            swap_free: 0,
            anon_pages: 0,
            pswpin: 0,
            pswpout: 0,
            pswpin_delta: 0,
            pswpout_delta: 0,
        };
        proc.collect_meminfo(meminfo);
        proc.collect_vmstat(vmstat);
        if let Some(p) = prev {
            proc.pswpin_delta = if proc.pswpin >= p.pswpin {
                proc.pswpin - p.pswpin
            } else {
                0
            };
            proc.pswpout_delta = if proc.pswpout >= p.pswpout {
                proc.pswpout - p.pswpout
            } else {
                0
            };
        }
        proc
    }

    /// Parse the memory-counter source into this snapshot's fields.
    pub fn collect_meminfo(&mut self, data: &Vec<u8>)
        ensures
            meminfo_of(*final(self)) == scan_meminfo(spec_lines(data@), meminfo_of(*old(self))),
            final(self).page_size == old(self).page_size,
            final(self).pswpin == old(self).pswpin,
            final(self).pswpout == old(self).pswpout,
            final(self).pswpin_delta == old(self).pswpin_delta,
            final(self).pswpout_delta == old(self).pswpout_delta,
    {
        let lines = split_lines(data);
        let m = scan_meminfo_lines(
            &lines,
            MemInfoVals {
                mlocked: self.mlocked,
                swap_total: self.swap_total,
                swap_free: self.swap_free,
                anon_pages: self.anon_pages,
            },
        );
        self.mlocked = m.mlocked;
        self.swap_total = m.swap_total;
        self.swap_free = m.swap_free;
        self.anon_pages = m.anon_pages;
    }

    /// Parse the paging-activity source into this snapshot's fields.
    pub fn collect_vmstat(&mut self, data: &Vec<u8>)
        ensures
            vmstat_of(*final(self)) == scan_vmstat(spec_lines(data@), vmstat_of(*old(self))),
            final(self).page_size == old(self).page_size,
            meminfo_of(*final(self)) == meminfo_of(*old(self)),
            final(self).pswpin_delta == old(self).pswpin_delta,
            final(self).pswpout_delta == old(self).pswpout_delta,
    {
        let lines = split_lines(data);
        let v = scan_vmstat_lines(&lines, VmStatVals { pswpin: self.pswpin, pswpout: self.pswpout });
        self.pswpin = v.pswpin;
        self.pswpout = v.pswpout;
    }

    /// The system-wide locked total in MB, as the status line shows it.
    pub fn locked_mb(&self) -> (r: u64)
        ensures
            r == kb_to_mb(self.mlocked),
    {
        self.mlocked / 1024
    }

    /// The anonymous-but-unlocked total in MB: anonymous-resident minus
    /// locked, floored at zero.
    pub fn unlocked_mb(&self) -> (r: u64)
        ensures
            r == sat_sub(kb_to_mb(self.anon_pages), kb_to_mb(self.mlocked)),
    {
        let anon = self.anon_pages / 1024;
        let locked = self.mlocked / 1024;
        if anon >= locked {
            anon - locked
        } else {
            0
        }
    }

    /// Swap in use in MB: capacity minus free, floored at zero.
    pub fn swap_used_mb(&self) -> (r: u64)
        ensures
            r == sat_sub(kb_to_mb(self.swap_total), kb_to_mb(self.swap_free)),
    {
        let total = self.swap_total / 1024;
        let free = self.swap_free / 1024;
        if total >= free {
            total - free
        } else {
            0
        }
    }

    /// Bytes swapped in since the previous snapshot, in MB.
    pub fn swap_in_mb(&self) -> (r: u64)
        ensures
            r == pages_to_mb(self.pswpin_delta, self.page_size),
    {
        mb_of_pages(self.pswpin_delta, self.page_size)
    }

    /// Bytes swapped out since the previous snapshot, in MB.
    pub fn swap_out_mb(&self) -> (r: u64)
        ensures
            r == pages_to_mb(self.pswpout_delta, self.page_size),
    {
        mb_of_pages(self.pswpout_delta, self.page_size)
    }

    /// The rendered system-wide status line: the fixed layout over the
    /// five megabyte figures.
    pub fn render(&self) -> (r: String)
        ensures
            r@ == sys_line_of(
                kb_to_mb(self.mlocked),
                sat_sub(kb_to_mb(self.anon_pages), kb_to_mb(self.mlocked)),
                sat_sub(kb_to_mb(self.swap_total), kb_to_mb(self.swap_free)),
                pages_to_mb(self.pswpin_delta, self.page_size),
                pages_to_mb(self.pswpout_delta, self.page_size),
            ),
    {
        fmt_sys_line(
            self.locked_mb(),
            self.unlocked_mb(),
            self.swap_used_mb(),
            self.swap_in_mb(),
            self.swap_out_mb(),
        )
    }
}

fn mb_of_pages(pages: u64, page_size: usize) -> (r: u64)
    ensures
        r == pages_to_mb(pages, page_size),
{
    proof {
        assert((pages as int) * (page_size as int) < 0x100000000000000000000000000000000int)
            by (nonlinear_arith)
            requires
                0 <= pages <= u64::MAX,
                0 <= page_size <= u64::MAX,
        ;
    }
    let v: u128 = (pages as u128) * (page_size as u128) / (1024 * 1024);
    if v > u64::MAX as u128 {
        u64::MAX
    } else {
        v as u64
    }
}

/// The text of the system-wide status line for the five megabyte figures:
/// a function of the figures alone.
pub uninterp spec fn sys_line_of(
    locked_mb: u64,
    unlocked_mb: u64,
    swap_mb: u64,
    swap_in_mb: u64,
    swap_out_mb: u64,
) -> Seq<char>;

/// Relies on std's format macro: lays the five system-wide figures out as
/// the fixed status line, whose text `sys_line_of` names.
#[verifier::external_body]
fn fmt_sys_line(locked: u64, unlocked: u64, swap: u64, swap_in: u64, swap_out: u64) -> (r: String)
    ensures
        r@ == sys_line_of(locked, unlocked, swap, swap_in, swap_out),
{
    format!(
        "locked {:5} MB, unlocked {:5} MB, swap {:5} MB, swap i/o +{}/+{} MB",
        locked, unlocked, swap, swap_in, swap_out,
    )
}

/// The current process's own memory accounting: locked, resident-anonymous
/// and swapped-out pages, in kB.
pub struct ProcSelf {
    pub vm_lck: u64,
    pub rss_anon: u64,
    pub vm_swap: u64,
}

/// The fields of a process snapshot.
pub open spec fn status_of(p: ProcSelf) -> StatusVals {
    StatusVals { vm_lck: p.vm_lck, rss_anon: p.rss_anon, vm_swap: p.vm_swap }
}

/// All process fields at their default zero.
pub open spec fn zero_status() -> StatusVals {
    StatusVals { vm_lck: 0, rss_anon: 0, vm_swap: 0 }
}

impl ProcSelf {
    /// One process-local sample from the raw bytes of the process's
    /// accounting source (empty when unreadable, which leaves every field
    /// zero). Each recognized field is parsed from its labelled line; a
    /// missing or malformed field stays zero.
    pub fn collect(status: &Vec<u8>) -> (r: ProcSelf)
        ensures
            status_of(r) == scan_status(spec_lines(status@), zero_status()),
    {
        let mut pid = ProcSelf { vm_lck: 0, rss_anon: 0, vm_swap: 0 };
        pid.collect_status(status);
        pid
    }

    /// Parse the process accounting source into this snapshot's fields.
    pub fn collect_status(&mut self, data: &Vec<u8>)
        ensures
            status_of(*final(self)) == scan_status(spec_lines(data@), status_of(*old(self))),
    {
        let lines = split_lines(data);
        let v = scan_status_lines(
            &lines,
            StatusVals { vm_lck: self.vm_lck, rss_anon: self.rss_anon, vm_swap: self.vm_swap },
        );
        self.vm_lck = v.vm_lck;
        self.rss_anon = v.rss_anon;
        self.vm_swap = v.vm_swap;
    }

    /// The process's locked total in MB.
    pub fn locked_mb(&self) -> (r: u64)
        ensures
            r == kb_to_mb(self.vm_lck),
    {
        self.vm_lck / 1024
    }

    /// The process's anonymous-but-unlocked total in MB, floored at zero.
    pub fn unlocked_mb(&self) -> (r: u64)
        ensures
            r == sat_sub(kb_to_mb(self.rss_anon), kb_to_mb(self.vm_lck)),
    {
        let anon = self.rss_anon / 1024;
        let locked = self.vm_lck / 1024;
        if anon >= locked {
            anon - locked
        } else {
            0
        }
    }

    /// The process's swapped-out total in MB.
    pub fn swap_mb(&self) -> (r: u64)
        ensures
            r == kb_to_mb(self.vm_swap),
    {
        self.vm_swap / 1024
    }

    /// The rendered process status line: the fixed layout over the three
    /// megabyte figures.
    pub fn render(&self) -> (r: String)
        ensures
            r@ == self_line_of(
                kb_to_mb(self.vm_lck),
                sat_sub(kb_to_mb(self.rss_anon), kb_to_mb(self.vm_lck)),
                kb_to_mb(self.vm_swap),
            ),
    {
        fmt_self_line(self.locked_mb(), self.unlocked_mb(), self.swap_mb())
    }
}

/// The text of the process status line for the three megabyte figures: a
/// function of the figures alone.
pub uninterp spec fn self_line_of(locked_mb: u64, unlocked_mb: u64, swap_mb: u64) -> Seq<char>;

/// Relies on std's format macro: lays the three process figures out as the
/// fixed status line, whose text `self_line_of` names.
#[verifier::external_body]
fn fmt_self_line(locked: u64, unlocked: u64, swap: u64) -> (r: String)
    ensures
        r@ == self_line_of(locked, unlocked, swap),
{
    format!("locked {:5} MB, unlocked {:5} MB, swap {:5} MB", locked, unlocked, swap)
}

} // verus!
