//! MQ coder: the adaptive binary arithmetic entropy coder of ISO/IEC
//! 15444-1 Annex C.
//!
//! Encoder and decoder share the 47-row probability estimation table and
//! a per-context state of a table index and the sense of the more
//! probable symbol. The code register is 32-bit with wrap-around
//! arithmetic, as the standard assumes; the interval register stays
//! within 16 bits.

use vstd::prelude::*;

verus! {

/// One row of the probability estimation table (Table C.2): the
/// probability estimate, the next rows on coding the more and the less
/// probable symbol, and whether coding the less probable symbol flips
/// the sense.
#[derive(Debug, Clone, Copy, PartialEq, Eq, Structural)]
pub struct QeEntry {
    pub qe: u16,
    pub nmps: u8,
    pub nlps: u8,
    pub switch: bool,
}

/// Row `i` of the probability estimation table.
pub open spec fn spec_qe_entry(i: int) -> QeEntry {
    if i == 0 {
        QeEntry { qe: 0x5601, nmps: 1, nlps: 1, switch: true }
    }
    else if i == 1 {
        QeEntry { qe: 0x3401, nmps: 2, nlps: 6, switch: false }
    }
    else if i == 2 {
        QeEntry { qe: 0x1801, nmps: 3, nlps: 9, switch: false }
    }
    else if i == 3 {
        QeEntry { qe: 0x0AC1, nmps: 4, nlps: 12, switch: false }
    }
    else if i == 4 {
        QeEntry { qe: 0x0521, nmps: 5, nlps: 29, switch: false }
    }
    else if i == 5 {
        QeEntry { qe: 0x0221, nmps: 38, nlps: 33, switch: false }
    }
    else if i == 6 {
        QeEntry { qe: 0x5601, nmps: 7, nlps: 6, switch: true }
    }
    else if i == 7 {
        QeEntry { qe: 0x5401, nmps: 8, nlps: 14, switch: false }
    }
    else if i == 8 {
        QeEntry { qe: 0x4801, nmps: 9, nlps: 14, switch: false }
    }
    else if i == 9 {
        QeEntry { qe: 0x3801, nmps: 10, nlps: 14, switch: false }
    }
    else if i == 10 {
        QeEntry { qe: 0x3001, nmps: 11, nlps: 17, switch: false }
    }
    else if i == 11 {
        QeEntry { qe: 0x2401, nmps: 12, nlps: 18, switch: false }
    }
    else if i == 12 {
        QeEntry { qe: 0x1C01, nmps: 13, nlps: 20, switch: false }
    }
    else if i == 13 {
        QeEntry { qe: 0x1601, nmps: 29, nlps: 21, switch: false }
    }
    else if i == 14 {
        QeEntry { qe: 0x5601, nmps: 15, nlps: 14, switch: true }
    }
    else if i == 15 {
        QeEntry { qe: 0x5401, nmps: 16, nlps: 14, switch: false }
    }
    else if i == 16 {
        QeEntry { qe: 0x5101, nmps: 17, nlps: 15, switch: false }
    }
    else if i == 17 {
        QeEntry { qe: 0x4801, nmps: 18, nlps: 16, switch: false }
    }
    else if i == 18 {
        QeEntry { qe: 0x3801, nmps: 19, nlps: 17, switch: false }
    }
    else if i == 19 {
        QeEntry { qe: 0x3401, nmps: 20, nlps: 18, switch: false }
    }
    else if i == 20 {
        QeEntry { qe: 0x3001, nmps: 21, nlps: 19, switch: false }
    }
    else if i == 21 {
        QeEntry { qe: 0x2801, nmps: 22, nlps: 19, switch: false }
    }
    else if i == 22 {
        QeEntry { qe: 0x2401, nmps: 23, nlps: 20, switch: false }
    }
    else if i == 23 {
        QeEntry { qe: 0x2201, nmps: 24, nlps: 21, switch: false }
    }
    else if i == 24 {
        QeEntry { qe: 0x1C01, nmps: 25, nlps: 22, switch: false }
    }
    else if i == 25 {
        QeEntry { qe: 0x1801, nmps: 26, nlps: 23, switch: false }
    }
    else if i == 26 {
        QeEntry { qe: 0x1601, nmps: 27, nlps: 24, switch: false }
    }
    else if i == 27 {
        QeEntry { qe: 0x1401, nmps: 28, nlps: 25, switch: false }
    }
    else if i == 28 {
        QeEntry { qe: 0x1201, nmps: 29, nlps: 26, switch: false }
    }
    else if i == 29 {
        QeEntry { qe: 0x1101, nmps: 30, nlps: 27, switch: false }
    }
    else if i == 30 {
        QeEntry { qe: 0x0AC1, nmps: 31, nlps: 28, switch: false }
    }
    else if i == 31 {
        QeEntry { qe: 0x09C1, nmps: 32, nlps: 29, switch: false }
    }
    else if i == 32 {
        QeEntry { qe: 0x08A1, nmps: 33, nlps: 30, switch: false }
    }
    else if i == 33 {
        QeEntry { qe: 0x0521, nmps: 34, nlps: 31, switch: false }
    }
    else if i == 34 {
        QeEntry { qe: 0x0441, nmps: 35, nlps: 32, switch: false }
    }
    else if i == 35 {
        QeEntry { qe: 0x02A1, nmps: 36, nlps: 33, switch: false }
    }
    else if i == 36 {
        QeEntry { qe: 0x0221, nmps: 37, nlps: 34, switch: false }
    }
    else if i == 37 {
        QeEntry { qe: 0x0141, nmps: 38, nlps: 35, switch: false }
    }
    else if i == 38 {
        QeEntry { qe: 0x0111, nmps: 39, nlps: 36, switch: false }
    }
    else if i == 39 {
        QeEntry { qe: 0x0085, nmps: 40, nlps: 37, switch: false }
    }
    else if i == 40 {
        QeEntry { qe: 0x0049, nmps: 41, nlps: 38, switch: false }
    }
    else if i == 41 {
        QeEntry { qe: 0x0025, nmps: 42, nlps: 39, switch: false }
    }
    else if i == 42 {
        QeEntry { qe: 0x0015, nmps: 43, nlps: 40, switch: false }
    }
    else if i == 43 {
        QeEntry { qe: 0x0009, nmps: 44, nlps: 41, switch: false }
    }
    else if i == 44 {
        QeEntry { qe: 0x0005, nmps: 45, nlps: 42, switch: false }
    }
    else if i == 45 {
        QeEntry { qe: 0x0001, nmps: 45, nlps: 43, switch: false }
    }
    else {
        QeEntry { qe: 0x5601, nmps: 46, nlps: 46, switch: false }
    }
}

/// Every table row keeps its estimate within 15 bits and positive, and
/// its successor rows within the table.
pub proof fn lemma_qe_entry_bounds(i: int)
    requires
        0 <= i < 47,
    ensures
        1 <= spec_qe_entry(i).qe <= 0x5601,
        spec_qe_entry(i).nmps <= 46,
        spec_qe_entry(i).nlps <= 46,
{
}

/// Look up row `i` of the probability estimation table.
pub fn qe_row(i: usize) -> (r: QeEntry)
    requires
        i < 47,
    ensures
        r == spec_qe_entry(i as int),
{
    if i == 0 {
        QeEntry { qe: 0x5601, nmps: 1, nlps: 1, switch: true }
    }
    else if i == 1 {
        QeEntry { qe: 0x3401, nmps: 2, nlps: 6, switch: false }
    }
    else if i == 2 {
        QeEntry { qe: 0x1801, nmps: 3, nlps: 9, switch: false }
    }
    else if i == 3 {
        QeEntry { qe: 0x0AC1, nmps: 4, nlps: 12, switch: false }
    }
    else if i == 4 {
        QeEntry { qe: 0x0521, nmps: 5, nlps: 29, switch: false }
    }
    else if i == 5 {
        QeEntry { qe: 0x0221, nmps: 38, nlps: 33, switch: false }
    }
    else if i == 6 {
        QeEntry { qe: 0x5601, nmps: 7, nlps: 6, switch: true }
    }
    else if i == 7 {
        QeEntry { qe: 0x5401, nmps: 8, nlps: 14, switch: false }
    }
    else if i == 8 {
        QeEntry { qe: 0x4801, nmps: 9, nlps: 14, switch: false }
    }
    else if i == 9 {
        QeEntry { qe: 0x3801, nmps: 10, nlps: 14, switch: false }
    }
    else if i == 10 {
        QeEntry { qe: 0x3001, nmps: 11, nlps: 17, switch: false }
    }
    else if i == 11 {
        QeEntry { qe: 0x2401, nmps: 12, nlps: 18, switch: false }
    }
    else if i == 12 {
        QeEntry { qe: 0x1C01, nmps: 13, nlps: 20, switch: false }
    }
    else if i == 13 {
        QeEntry { qe: 0x1601, nmps: 29, nlps: 21, switch: false }
    }
    else if i == 14 {
        QeEntry { qe: 0x5601, nmps: 15, nlps: 14, switch: true }
    }
    else if i == 15 {
        QeEntry { qe: 0x5401, nmps: 16, nlps: 14, switch: false }
    }
    else if i == 16 {
        QeEntry { qe: 0x5101, nmps: 17, nlps: 15, switch: false }
    }
    else if i == 17 {
        QeEntry { qe: 0x4801, nmps: 18, nlps: 16, switch: false }
    }
    else if i == 18 {
        QeEntry { qe: 0x3801, nmps: 19, nlps: 17, switch: false }
    }
    else if i == 19 {
        QeEntry { qe: 0x3401, nmps: 20, nlps: 18, switch: false }
    }
    else if i == 20 {
        QeEntry { qe: 0x3001, nmps: 21, nlps: 19, switch: false }
    }
    else if i == 21 {
        QeEntry { qe: 0x2801, nmps: 22, nlps: 19, switch: false }
    }
    else if i == 22 {
        QeEntry { qe: 0x2401, nmps: 23, nlps: 20, switch: false }
    }
    else if i == 23 {
        QeEntry { qe: 0x2201, nmps: 24, nlps: 21, switch: false }
    }
    else if i == 24 {
        QeEntry { qe: 0x1C01, nmps: 25, nlps: 22, switch: false }
    }
    else if i == 25 {
        QeEntry { qe: 0x1801, nmps: 26, nlps: 23, switch: false }
    }
    else if i == 26 {
        QeEntry { qe: 0x1601, nmps: 27, nlps: 24, switch: false }
    }
    else if i == 27 {
        QeEntry { qe: 0x1401, nmps: 28, nlps: 25, switch: false }
    }
    else if i == 28 {
        QeEntry { qe: 0x1201, nmps: 29, nlps: 26, switch: false }
    }
    else if i == 29 {
        QeEntry { qe: 0x1101, nmps: 30, nlps: 27, switch: false }
    }
    else if i == 30 {
        QeEntry { qe: 0x0AC1, nmps: 31, nlps: 28, switch: false }
    }
    else if i == 31 {
        QeEntry { qe: 0x09C1, nmps: 32, nlps: 29, switch: false }
    }
    else if i == 32 {
        QeEntry { qe: 0x08A1, nmps: 33, nlps: 30, switch: false }
    }
    else if i == 33 {
        QeEntry { qe: 0x0521, nmps: 34, nlps: 31, switch: false }
    }
    else if i == 34 {
        QeEntry { qe: 0x0441, nmps: 35, nlps: 32, switch: false }
    }
    else if i == 35 {
        QeEntry { qe: 0x02A1, nmps: 36, nlps: 33, switch: false }
    }
    else if i == 36 {
        QeEntry { qe: 0x0221, nmps: 37, nlps: 34, switch: false }
    }
    else if i == 37 {
        QeEntry { qe: 0x0141, nmps: 38, nlps: 35, switch: false }
    }
    else if i == 38 {
        QeEntry { qe: 0x0111, nmps: 39, nlps: 36, switch: false }
    }
    else if i == 39 {
        QeEntry { qe: 0x0085, nmps: 40, nlps: 37, switch: false }
    }
    else if i == 40 {
        QeEntry { qe: 0x0049, nmps: 41, nlps: 38, switch: false }
    }
    else if i == 41 {
        QeEntry { qe: 0x0025, nmps: 42, nlps: 39, switch: false }
    }
    else if i == 42 {
        QeEntry { qe: 0x0015, nmps: 43, nlps: 40, switch: false }
    }
    else if i == 43 {
        QeEntry { qe: 0x0009, nmps: 44, nlps: 41, switch: false }
    }
    else if i == 44 {
        QeEntry { qe: 0x0005, nmps: 45, nlps: 42, switch: false }
    }
    else if i == 45 {
        QeEntry { qe: 0x0001, nmps: 45, nlps: 43, switch: false }
    }
    else {
        QeEntry { qe: 0x5601, nmps: 46, nlps: 46, switch: false }
    }
}

/// The whole probability estimation table, in row order.
pub fn qe_table() -> (t: Vec<QeEntry>)
    ensures
        t@.len() == 47,
        forall|i: int| 0 <= i < 47 ==> t@[i] == spec_qe_entry(i),
{
    let mut t: Vec<QeEntry> = Vec::new();
    let mut i: usize = 0;
    while i < 47
        invariant
            i <= 47,
            t@.len() == i,
            forall|j: int| 0 <= j < i ==> t@[j] == spec_qe_entry(j),
        decreases 47 - i,
    {
        t.push(qe_row(i));
        i = i + 1;
    }
    t
}

} // verus!

verus! {

/// The adaptation state of one coding context: a row of the probability
/// estimation table and the current sense of the more probable symbol.
#[derive(Debug, Clone, Copy, PartialEq, Eq, Structural)]
pub struct ContextState {
    pub index: u8,
    pub mps: u8,
}

/// A context state is valid when its row index lies within the table and
/// its symbol sense is a bit.
pub open spec fn ctx_wf(c: ContextState) -> bool {
    c.index <= 46 && c.mps <= 1
}

/// All context states of a coder are valid.
pub open spec fn ctxs_wf(s: Seq<ContextState>) -> bool {
    forall|i: int| 0 <= i < s.len() ==> ctx_wf(#[trigger] s[i])
}

/// The adaptation of a context whose more probable symbol was coded: a
/// move to the NMPS row once the interval calls for renormalization.
pub open spec fn ctx_on_mps(a: u32, ctx: ContextState) -> ContextState {
    let row = spec_qe_entry(ctx.index as int);
    if a - row.qe < 0x8000 {
        ContextState { index: row.nmps, mps: ctx.mps }
    } else {
        ctx
    }
}

/// The adaptation of a context whose less probable symbol was coded: a
/// move to the NLPS row, with the symbol sense flipped on switch rows.
pub open spec fn ctx_on_lps(ctx: ContextState) -> ContextState {
    let row = spec_qe_entry(ctx.index as int);
    ContextState {
        index: row.nlps,
        mps: if row.switch { (1 - ctx.mps) as u8 } else { ctx.mps },
    }
}

/// What one ENCODE step does to the encoder's registers and buffer:
/// the interval shrinks by the context's estimate or collapses to it
/// under the conditional exchange, the code register grows along the
/// upper subinterval, and RENORME runs whenever the interval loses its
/// top bit.
pub open spec fn encode_step_spec(
    a: u32,
    c: u32,
    ct: int,
    bp: int,
    buf: Seq<u8>,
    ctx: ContextState,
    d: u8,
) -> (int, int, int, int, Seq<u8>) {
    let row = spec_qe_entry(ctx.index as int);
    let symbol: u8 = if d == 0 { 0 } else { 1 };
    let a1 = a - row.qe;
    if symbol == ctx.mps {
        if a1 >= 0x8000 {
            (a1, (c + row.qe) % 0x100000000, ct, bp, buf)
        } else {
            let astart: int = if a1 < row.qe { row.qe as int } else { a1 };
            let cstart: int = if a1 < row.qe { c as int } else { (c + row.qe) % 0x100000000 };
            renorme_spec(astart, cstart, ct, bp, buf)
        }
    } else {
        let astart: int = if a1 < row.qe { a1 } else { row.qe as int };
        let cstart: int = if a1 < row.qe { (c + row.qe) % 0x100000000 } else { c as int };
        renorme_spec(astart, cstart, ct, bp, buf)
    }
}

/// The adaptation a context undergoes when the encoder codes decision
/// `d` in it.
pub open spec fn enc_ctx_after(a: u32, ctx: ContextState, d: u8) -> ContextState {
    let symbol: u8 = if d == 0 { 0 } else { 1 };
    if symbol == ctx.mps {
        ctx_on_mps(a, ctx)
    } else {
        ctx_on_lps(ctx)
    }
}

/// The decision the decoder produces from the interval register `a`, the
/// code register `c` and the context state, per the DECODE procedure
/// with its two conditional exchanges.
pub open spec fn dec_decision(a: u32, c: u32, ctx: ContextState) -> u8 {
    let row = spec_qe_entry(ctx.index as int);
    let a1 = a - row.qe;
    let c_high = c / 0x10000;
    if c_high < row.qe {
        if a1 < row.qe {
            ctx.mps
        } else {
            (1 - ctx.mps) as u8
        }
    } else {
        if a1 < 0x8000 {
            if a1 < row.qe {
                (1 - ctx.mps) as u8
            } else {
                ctx.mps
            }
        } else {
            ctx.mps
        }
    }
}

/// The adaptation the decoded context undergoes, mirroring
/// [`dec_decision`]: the NMPS row when the more probable symbol came
/// out of an exchange, the NLPS row (with the switch flip) for the less
/// probable one, and no change when no renormalization is due.
pub open spec fn dec_ctx_after(a: u32, c: u32, ctx: ContextState) -> ContextState {
    let row = spec_qe_entry(ctx.index as int);
    let a1 = a - row.qe;
    let c_high = c / 0x10000;
    let nmps_ctx = ContextState { index: row.nmps, mps: ctx.mps };
    if c_high < row.qe {
        if a1 < row.qe {
            nmps_ctx
        } else {
            ctx_on_lps(ctx)
        }
    } else {
        if a1 < 0x8000 {
            if a1 < row.qe {
                ctx_on_lps(ctx)
            } else {
                nmps_ctx
            }
        } else {
            ctx
        }
    }
}

/// Adaptation never leaves the probability estimation table: a valid
/// context stays valid under the encoder's and the decoder's moves, for
/// any register values and either decision.
pub proof fn lemma_adaptation_preserves_validity(a: u32, c: u32, ctx: ContextState)
    requires
        ctx_wf(ctx),
    ensures
        ctx_wf(enc_ctx_after(a, ctx, 0)),
        ctx_wf(enc_ctx_after(a, ctx, 1)),
        ctx_wf(dec_ctx_after(a, c, ctx)),
{
    lemma_qe_entry_bounds(ctx.index as int);
}

/// What BYTEOUT (C.2.9) does to the encoder's buffer, buffer pointer,
/// code register and bit counter: after a 0xFF byte only 7 fresh bits
/// leave the register; a pending carry first lands in the byte already
/// written, and a 0xFE turning 0xFF switches to the stuffed form.
pub open spec fn byteout_spec(buf: Seq<u8>, bp: int, c: u32) -> (Seq<u8>, int, int, int) {
    let b = buf[bp];
    if b == 0xFF {
        let v = (((c / 0x100000) % 0x100) as u8);
        let nb = if bp + 1 < buf.len() {
            buf.update(bp + 1, v)
        } else {
            buf.push(v)
        };
        (nb, bp + 1, (c % 0x100000) as int, 7)
    } else if c / 0x8000000 % 2 == 1 {
        if b == 0xFE {
            let c1 = c % 0x8000000;
            let v = (((c1 / 0x100000) % 0x100) as u8);
            let buf1 = buf.update(bp, 0xFFu8);
            let nb = if bp + 1 < buf1.len() {
                buf1.update(bp + 1, v)
            } else {
                buf1.push(v)
            };
            (nb, bp + 1, (c1 % 0x100000) as int, 7)
        } else {
            let v = (((c / 0x80000) % 0x100) as u8);
            let buf1 = buf.update(bp, (b + 1) as u8);
            let nb = if bp + 1 < buf1.len() {
                buf1.update(bp + 1, v)
            } else {
                buf1.push(v)
            };
            (nb, bp + 1, (c % 0x80000) as int, 8)
        }
    } else {
        let v = (((c / 0x80000) % 0x100) as u8);
        let nb = if bp + 1 < buf.len() {
            buf.update(bp + 1, v)
        } else {
            buf.push(v)
        };
        (nb, bp + 1, (c % 0x80000) as int, 8)
    }
}

/// What BYTEIN (C.3.4) does to the decoder's buffer pointer, code
/// register and bit counter: a fresh byte enters bits 15 to 8; after a
/// 0xFF only the 7 bits of the stuffed byte enter; a marker or the end
/// of the data feeds 1-bits.
pub open spec fn bytein_spec(buf: Seq<u8>, bp: int, c: int) -> (int, int, int) {
    if bp >= buf.len() {
        (bp, (c + 0xFF00) % 0x100000000, 8)
    } else {
        let b = buf[bp] as int;
        if b == 0xFF {
            if bp + 1 < buf.len() {
                if buf[bp + 1] > 0x8F {
                    (bp, (c + 0xFF00) % 0x100000000, 8)
                } else {
                    (bp + 1, (c + b * 0x200) % 0x100000000, 7)
                }
            } else {
                (bp, (c + 0xFF00) % 0x100000000, 8)
            }
        } else {
            (bp + 1, (c + b * 0x100) % 0x100000000, 8)
        }
    }
}

/// What RENORMD (C.3.3) does to the decoder's interval register, code
/// register, bit counter and read position: double and shift until the
/// interval's top bit returns, reading a byte whenever the counter runs
/// out. States already renormalized (or degenerate) stay put.
pub open spec fn renormd_spec(a: int, c: int, ct: int, bp: int, buf: Seq<u8>) -> (
    int,
    int,
    int,
    int,
)
    decreases 0x10000 - a,
{
    if a < 1 || a >= 0x8000 {
        (a, c, ct, bp)
    } else {
        let step = if ct == 0 {
            bytein_spec(buf, bp, c)
        } else {
            (bp, c, ct)
        };
        renormd_spec(2 * a, (2 * step.1) % 0x100000000, step.2 - 1, step.0, buf)
    }
}

/// The code register INITDEC (C.3.5) loads from the compressed data:
/// the first byte into bits 23 to 16, one BYTEIN, then a shift by 7.
pub open spec fn initdec_c(buf: Seq<u8>) -> int {
    let c0: int = if buf.len() > 0 { buf[0] * 0x10000 } else { 0 };
    let bp0: int = if buf.len() > 0 { 1 } else { 0 };
    (bytein_spec(buf, bp0, c0).1 * 128) % 0x100000000
}

/// The bit counter INITDEC leaves: the BYTEIN's count less the 7 shifted
/// bits.
pub open spec fn initdec_ct(buf: Seq<u8>) -> int {
    let bp0: int = if buf.len() > 0 { 1 } else { 0 };
    bytein_spec(buf, bp0, 0).2 - 7
}

/// The read position INITDEC leaves.
pub open spec fn initdec_bp(buf: Seq<u8>) -> int {
    let c0: int = if buf.len() > 0 { buf[0] * 0x10000 } else { 0 };
    let bp0: int = if buf.len() > 0 { 1 } else { 0 };
    bytein_spec(buf, bp0, c0).0
}

/// What RENORME (C.2.8) does to the encoder's interval register, code
/// register, bit counter, buffer pointer and buffer: double and shift
/// until the interval's top bit returns, emitting a byte whenever the
/// bit counter runs out. States already renormalized (or degenerate)
/// stay put.
pub open spec fn renorme_spec(a: int, c: int, ct: int, bp: int, buf: Seq<u8>) -> (
    int,
    int,
    int,
    int,
    Seq<u8>,
)
    decreases 0x10000 - a,
{
    if a < 1 || a >= 0x8000 {
        (a, c, ct, bp, buf)
    } else {
        let a2 = 2 * a;
        let c2 = (2 * c) % 0x100000000;
        let ct2 = ct - 1;
        if ct2 == 0 {
            let o = byteout_spec(buf, bp, c2 as u32);
            renorme_spec(a2, o.2, o.3, o.1, o.0)
        } else {
            renorme_spec(a2, c2, ct2, bp, buf)
        }
    }
}

/// The code register after SETBITS (C.2.9): the low 16 bits forced to
/// one, pulled back by half the interval when that leaves the final
/// interval.
pub open spec fn setbits_spec(c: u32, a: u32) -> int {
    let temp = (c + a) % 0x100000000;
    let c1 = (c / 0x10000) * 0x10000 + 0xFFFF;
    if c1 >= temp {
        c1 - 0x8000
    } else {
        c1
    }
}

/// The bytes FLUSH returns, from the encoder's registers and buffer:
/// SETBITS, two shifted BYTEOUTs, the trailing 0xFF dropped, and the
/// leading sentinel byte removed.
pub open spec fn flush_spec(a: u32, c: u32, ct: int, bp: int, buf: Seq<u8>) -> Seq<u8> {
    let c1 = setbits_spec(c, a) as u32;
    let c2 = c1 << (ct as u32);
    let o1 = byteout_spec(buf, bp, c2);
    let c3 = (o1.2 as u32) << (o1.3 as u32);
    let o2 = byteout_spec(o1.0, o1.1, c3);
    let trimmed = if o2.0[o2.1] == 0xFF {
        o2.0.take(o2.1)
    } else {
        o2.0.take(o2.1 + 1)
    };
    let kept = if trimmed.len() == 0 {
        seq![0u8]
    } else {
        trimmed
    };
    kept.subrange(1, kept.len() as int)
}

/// The context slot initialized to the uniform distribution row.
pub const UNIFORM: usize = 18;

/// The context slot used for run-length coding.
pub const RUN_LEN: usize = 17;

/// The all-zero-neighbour significance context slot.
pub const ZERO_CTX: usize = 0;

/// MQ encoder (C.2): turns decisions into compressed bytes.
///
/// `a` is the interval register, kept within 16 bits; `c` is the 32-bit
/// code register with wrap-around arithmetic; `ct` counts the bits until
/// the next byte leaves `c`; `buffer` collects the output behind a
/// leading sentinel byte that `flush` drops; `bp` points at the last
/// byte written.
#[derive(Debug)]
pub struct MqEncoder {
    pub a: u32,
    pub c: u32,
    pub ct: i32,
    pub buffer: Vec<u8>,
    pub bp: usize,
    pub contexts: Vec<ContextState>,
}

/// An initialized encoder ready to take decisions: the interval register
/// renormalized, the bit counter within its working range, the buffer
/// pointer inside the buffer, and every context valid.
pub open spec fn enc_wf(e: MqEncoder) -> bool {
    &&& 0x8000 <= e.a <= 0xFFFF
    &&& 1 <= e.ct <= 13
    &&& e.bp < e.buffer@.len()
    &&& ctxs_wf(e.contexts@)
}

impl MqEncoder {
    /// Create an encoder with `num_contexts` contexts, all at row 0 with
    /// the more probable symbol 0. `init` must run before encoding.
    pub fn new(num_contexts: usize) -> (r: MqEncoder)
        ensures
            r.contexts@.len() == num_contexts,
            ctxs_wf(r.contexts@),
    {
        let mut contexts: Vec<ContextState> = Vec::new();
        let mut i: usize = 0;
        while i < num_contexts
            invariant
                i <= num_contexts,
                contexts@.len() == i,
                forall|j: int| 0 <= j < i ==> #[trigger] contexts@[j]
                    == (ContextState { index: 0, mps: 0 }),
            decreases num_contexts - i,
        {
            contexts.push(ContextState { index: 0, mps: 0 });
            i = i + 1;
        }
        MqEncoder { a: 0, c: 0, ct: 0, buffer: Vec::new(), bp: 0, contexts }
    }

    /// INITENC (C.2.1): reset the registers and start the output buffer
    /// with its sentinel byte.
    pub fn init(&mut self)
        requires
            ctxs_wf(old(self).contexts@),
        ensures
            enc_wf(*final(self)),
            final(self).contexts@ == old(self).contexts@,
            final(self).a == 0x8000,
            final(self).c == 0,
            final(self).ct == 12,
            final(self).bp == 0,
            final(self).buffer@ == seq![0u8],
    {
        self.a = 0x8000;
        self.c = 0;
        self.buffer = Vec::new();
        self.buffer.push(0);
        self.bp = 0;
        // The spacer bits; a 0xFF byte before the stream would take one
        // more, but the buffer always starts at its sentinel.
        self.ct = 12;
    }

    /// Reset the 19 coding contexts to their standard initial rows
    /// (Table D.7): the uniform context to row 46, the run-length
    /// context to row 3, the zero context to row 4, all others to row 0.
    pub fn reset_contexts(&mut self)
        requires
            old(self).contexts@.len() == 19,
        ensures
            final(self).contexts@.len() == 19,
            ctxs_wf(final(self).contexts@),
            forall|i: int| 0 <= i < 19 ==> (#[trigger] final(self).contexts@[i]).mps == 0,
            final(self).contexts@[UNIFORM as int].index == 46,
            final(self).contexts@[RUN_LEN as int].index == 3,
            final(self).contexts@[ZERO_CTX as int].index == 4,
            forall|i: int| 0 <= i < 19 && i != UNIFORM && i != RUN_LEN && i != ZERO_CTX ==>
                (#[trigger] final(self).contexts@[i]).index == 0,
            final(self).a == old(self).a,
            final(self).c == old(self).c,
            final(self).ct == old(self).ct,
            final(self).bp == old(self).bp,
            final(self).buffer@ == old(self).buffer@,
    {
        let mut i: usize = 0;
        while i < 19
            invariant
                i <= 19,
                self.contexts@.len() == 19,
                forall|j: int| 0 <= j < i ==> #[trigger] self.contexts@[j]
                    == (ContextState { index: 0, mps: 0 }),
                self.a == old(self).a,
                self.c == old(self).c,
                self.ct == old(self).ct,
                self.bp == old(self).bp,
                self.buffer@ == old(self).buffer@,
            decreases 19 - i,
        {
            self.contexts[i] = ContextState { index: 0, mps: 0 };
            i = i + 1;
        }
        self.contexts[UNIFORM] = ContextState { index: 46, mps: 0 };
        self.contexts[RUN_LEN] = ContextState { index: 3, mps: 0 };
        self.contexts[ZERO_CTX] = ContextState { index: 4, mps: 0 };
    }

    /// ENCODE (C.2.2): code one decision `d` in context `cx`. The
    /// context adapts exactly as [`enc_ctx_after`] says; the other
    /// contexts stay as they are.
    pub fn encode(&mut self, cx: usize, d: u8)
        requires
            enc_wf(*old(self)),
            cx < old(self).contexts@.len(),
        ensures
            enc_wf(*final(self)),
            final(self).contexts@ == old(self).contexts@.update(
                cx as int,
                enc_ctx_after(old(self).a, old(self).contexts@[cx as int], d),
            ),
            final(self).buffer@.len() >= old(self).buffer@.len(),
            ({
                let rr = encode_step_spec(
                    old(self).a,
                    old(self).c,
                    old(self).ct as int,
                    old(self).bp as int,
                    old(self).buffer@,
                    old(self).contexts@[cx as int],
                    d,
                );
                final(self).a == rr.0 && final(self).c == rr.1 && final(self).ct == rr.2
                    && final(self).bp == rr.3 && final(self).buffer@ == rr.4
            }),
            ({
                let ctx = old(self).contexts@[cx as int];
                let row = spec_qe_entry(ctx.index as int);
                let symbol: u8 = if d == 0 { 0 } else { 1 };
                symbol == ctx.mps && old(self).a - row.qe >= 0x8000
                    ==> final(self).a == old(self).a - row.qe
                        && final(self).c == (old(self).c + row.qe) % 0x100000000
                        && final(self).ct == old(self).ct
                        && final(self).bp == old(self).bp
                        && final(self).buffer@ == old(self).buffer@
            }),
    {
        if d == 0 {
            self.code0(cx);
        } else {
            self.code1(cx);
        }
    }

    /// CODE0: a 0 decision is the more probable symbol exactly when the
    /// context's sense is 0.
    fn code0(&mut self, cx: usize)
        requires
            enc_wf(*old(self)),
            cx < old(self).contexts@.len(),
        ensures
            enc_wf(*final(self)),
            final(self).contexts@ == old(self).contexts@.update(
                cx as int,
                enc_ctx_after(old(self).a, old(self).contexts@[cx as int], 0),
            ),
            final(self).buffer@.len() >= old(self).buffer@.len(),
            ({
                let rr = encode_step_spec(
                    old(self).a,
                    old(self).c,
                    old(self).ct as int,
                    old(self).bp as int,
                    old(self).buffer@,
                    old(self).contexts@[cx as int],
                    0,
                );
                final(self).a == rr.0 && final(self).c == rr.1 && final(self).ct == rr.2
                    && final(self).bp == rr.3 && final(self).buffer@ == rr.4
            }),
            ({
                let ctx = old(self).contexts@[cx as int];
                let row = spec_qe_entry(ctx.index as int);
                ctx.mps == 0 && old(self).a - row.qe >= 0x8000
                    ==> final(self).a == old(self).a - row.qe
                        && final(self).c == (old(self).c + row.qe) % 0x100000000
                        && final(self).ct == old(self).ct
                        && final(self).bp == old(self).bp
                        && final(self).buffer@ == old(self).buffer@
            }),
    {
        if self.contexts[cx].mps == 0 {
            self.code_mps(cx);
        } else {
            self.code_lps(cx);
        }
    }

    /// CODE1: a 1 decision is the more probable symbol exactly when the
    /// context's sense is 1.
    fn code1(&mut self, cx: usize)
        requires
            enc_wf(*old(self)),
            cx < old(self).contexts@.len(),
        ensures
            enc_wf(*final(self)),
            final(self).contexts@ == old(self).contexts@.update(
                cx as int,
                enc_ctx_after(old(self).a, old(self).contexts@[cx as int], 1),
            ),
            final(self).buffer@.len() >= old(self).buffer@.len(),
            ({
                let rr = encode_step_spec(
                    old(self).a,
                    old(self).c,
                    old(self).ct as int,
                    old(self).bp as int,
                    old(self).buffer@,
                    old(self).contexts@[cx as int],
                    1,
                );
                final(self).a == rr.0 && final(self).c == rr.1 && final(self).ct == rr.2
                    && final(self).bp == rr.3 && final(self).buffer@ == rr.4
            }),
            ({
                let ctx = old(self).contexts@[cx as int];
                let row = spec_qe_entry(ctx.index as int);
                ctx.mps == 1 && old(self).a - row.qe >= 0x8000
                    ==> final(self).a == old(self).a - row.qe
                        && final(self).c == (old(self).c + row.qe) % 0x100000000
                        && final(self).ct == old(self).ct
                        && final(self).bp == old(self).bp
                        && final(self).buffer@ == old(self).buffer@
            }),
    {
        if self.contexts[cx].mps == 1 {
            self.code_mps(cx);
        } else {
            self.code_lps(cx);
        }
    }

    /// CODEMPS (C.2.5): shrink the interval by the probability estimate,
    /// with the conditional exchange when renormalization is due.
    fn code_mps(&mut self, cx: usize)
        requires
            enc_wf(*old(self)),
            cx < old(self).contexts@.len(),
        ensures
            enc_wf(*final(self)),
            final(self).contexts@ == old(self).contexts@.update(
                cx as int,
                ctx_on_mps(old(self).a, old(self).contexts@[cx as int]),
            ),
            final(self).buffer@.len() >= old(self).buffer@.len(),
            ({
                let row = spec_qe_entry(old(self).contexts@[cx as int].index as int);
                old(self).a - row.qe >= 0x8000 ==> final(self).a == old(self).a - row.qe
                    && final(self).c == (old(self).c + row.qe) % 0x100000000
                    && final(self).ct == old(self).ct
                    && final(self).bp == old(self).bp
                    && final(self).buffer@ == old(self).buffer@
            }),
            ({
                let row = spec_qe_entry(old(self).contexts@[cx as int].index as int);
                let a1 = old(self).a - row.qe;
                a1 < 0x8000 ==> ({
                    let astart: int = if a1 < row.qe { row.qe as int } else { a1 };
                    let cstart: int = if a1 < row.qe {
                        old(self).c as int
                    } else {
                        (old(self).c + row.qe) % 0x100000000
                    };
                    let rr = renorme_spec(
                        astart,
                        cstart,
                        old(self).ct as int,
                        old(self).bp as int,
                        old(self).buffer@,
                    );
                    final(self).a == rr.0 && final(self).c == rr.1 && final(self).ct == rr.2
                        && final(self).bp == rr.3 && final(self).buffer@ == rr.4
                })
            }),
    {
        let index = self.contexts[cx].index as usize;
        let row = qe_row(index);
        proof {
            lemma_qe_entry_bounds(index as int);
        }
        let qe = row.qe as u32;

        self.a = self.a - qe;

        if self.a < 0x8000 {
            // The interval became too small: conditional exchange, then
            // renormalize.
            if self.a < qe {
                self.a = qe;
            } else {
                self.c = self.c.wrapping_add(qe);
            }
            self.contexts[cx] = ContextState { index: row.nmps, mps: self.contexts[cx].mps };
            self.renorm_e();
        } else {
            self.c = self.c.wrapping_add(qe);
        }
    }

    /// CODELPS (C.2.6): code the less probable symbol, with the
    /// conditional exchange, the sense flip of switch rows, and a
    /// renormalization.
    fn code_lps(&mut self, cx: usize)
        requires
            enc_wf(*old(self)),
            cx < old(self).contexts@.len(),
        ensures
            enc_wf(*final(self)),
            final(self).contexts@ == old(self).contexts@.update(
                cx as int,
                ctx_on_lps(old(self).contexts@[cx as int]),
            ),
            final(self).buffer@.len() >= old(self).buffer@.len(),
            ({
                let row = spec_qe_entry(old(self).contexts@[cx as int].index as int);
                let a1 = old(self).a - row.qe;
                let astart: int = if a1 < row.qe { a1 } else { row.qe as int };
                let cstart: int = if a1 < row.qe {
                    (old(self).c + row.qe) % 0x100000000
                } else {
                    old(self).c as int
                };
                let rr = renorme_spec(
                    astart,
                    cstart,
                    old(self).ct as int,
                    old(self).bp as int,
                    old(self).buffer@,
                );
                final(self).a == rr.0 && final(self).c == rr.1 && final(self).ct == rr.2
                    && final(self).bp == rr.3 && final(self).buffer@ == rr.4
            }),
    {
        let index = self.contexts[cx].index as usize;
        let row = qe_row(index);
        proof {
            lemma_qe_entry_bounds(index as int);
        }
        let qe = row.qe as u32;

        self.a = self.a - qe;

        if self.a < qe {
            self.c = self.c.wrapping_add(qe);
        } else {
            self.a = qe;
        }

        let old_mps = self.contexts[cx].mps;
        let new_mps: u8 = if row.switch { 1 - old_mps } else { old_mps };
        self.contexts[cx] = ContextState { index: row.nlps, mps: new_mps };

        self.renorm_e();
    }

    /// RENORME (C.2.8): double the interval until its top bit returns,
    /// shifting the code register along and emitting bytes as the bit
    /// counter runs out.
    fn renorm_e(&mut self)
        requires
            1 <= old(self).a < 0x8000,
            1 <= old(self).ct <= 13,
            old(self).bp < old(self).buffer@.len(),
            ctxs_wf(old(self).contexts@),
        ensures
            0x8000 <= final(self).a <= 0xFFFF,
            1 <= final(self).ct <= 13,
            final(self).bp < final(self).buffer@.len(),
            final(self).contexts@ == old(self).contexts@,
            final(self).buffer@.len() >= old(self).buffer@.len(),
            ({
                let rr = renorme_spec(
                    old(self).a as int,
                    old(self).c as int,
                    old(self).ct as int,
                    old(self).bp as int,
                    old(self).buffer@,
                );
                final(self).a == rr.0 && final(self).c == rr.1 && final(self).ct == rr.2
                    && final(self).bp == rr.3 && final(self).buffer@ == rr.4
            }),
    {
        loop
            invariant
                1 <= self.a < 0x10000,
                1 <= self.ct <= 13,
                self.bp < self.buffer@.len(),
                self.contexts@ == old(self).contexts@,
                self.buffer@.len() >= old(self).buffer@.len(),
                renorme_spec(
                    old(self).a as int,
                    old(self).c as int,
                    old(self).ct as int,
                    old(self).bp as int,
                    old(self).buffer@,
                ) == renorme_spec(
                    self.a as int,
                    self.c as int,
                    self.ct as int,
                    self.bp as int,
                    self.buffer@,
                ),
            ensures
                0x8000 <= self.a <= 0xFFFF,
                1 <= self.ct <= 13,
                self.bp < self.buffer@.len(),
                self.contexts@ == old(self).contexts@,
                self.buffer@.len() >= old(self).buffer@.len(),
                ({
                    let rr = renorme_spec(
                        old(self).a as int,
                        old(self).c as int,
                        old(self).ct as int,
                        old(self).bp as int,
                        old(self).buffer@,
                    );
                    self.a == rr.0 && self.c == rr.1 && self.ct == rr.2 && self.bp == rr.3
                        && self.buffer@ == rr.4
                }),
            decreases 0x10000 - self.a,
        {
            if self.a >= 0x8000 {
                break;
            }
            self.a = self.a * 2;
            proof {
                let cv = self.c;
                assert(cv << 1u32 == (cv * 2) % 0x100000000) by (bit_vector);
            }
            self.c = self.c << 1u32;
            self.ct = self.ct - 1;

            if self.ct == 0 {
                self.byte_out();
            }

            if self.a >= 0x8000 {
                break;
            }
        }
    }

    /// BYTEOUT (C.2.9): move the next byte out of the code register,
    /// with the bit stuffing after a 0xFF byte and the carry propagation
    /// into the byte already written.
    fn byte_out(&mut self)
        requires
            old(self).bp < old(self).buffer@.len(),
        ensures
            final(self).bp < final(self).buffer@.len(),
            7 <= final(self).ct <= 8,
            final(self).a == old(self).a,
            final(self).contexts@ == old(self).contexts@,
            final(self).buffer@.len() >= old(self).buffer@.len(),
            ({
                let r = byteout_spec(old(self).buffer@, old(self).bp as int, old(self).c);
                &&& final(self).buffer@ == r.0
                &&& final(self).bp == r.1
                &&& final(self).c == r.2
                &&& final(self).ct == r.3
            }),
    {
        let len = self.buffer.len();
        let b = self.buffer[self.bp];

        if b == 0xFF {
            // The byte before was 0xFF: emit only 7 fresh bits so the
            // stuffed zero bit keeps markers out of the stream.
            let c_high = ((self.c / 0x100000) % 0x100) as u8;
            proof {
                assert(self.bp < len);
            }
            self.bp = self.bp + 1;
            if self.bp >= self.buffer.len() {
                self.buffer.push(0);
            }
            self.buffer[self.bp] = c_high;
            self.c = self.c % 0x100000;
            self.ct = 7;
        } else {
            if (self.c / 0x8000000) % 2 == 1 {
                // Carry: it propagates into the byte already written.
                let b1 = b + 1;
                self.buffer[self.bp] = b1;

                if b1 == 0xFF {
                    self.c = self.c % 0x8000000;
                    proof {
                        assert(self.bp < len);
                    }
                    self.bp = self.bp + 1;
                    if self.bp >= self.buffer.len() {
                        self.buffer.push(0);
                    }
                    let c_high = ((self.c / 0x100000) % 0x100) as u8;
                    self.buffer[self.bp] = c_high;
                    self.c = self.c % 0x100000;
                    self.ct = 7;
                    return;
                }
            }

            proof {
                assert(self.bp < len);
            }
            self.bp = self.bp + 1;
            if self.bp >= self.buffer.len() {
                self.buffer.push(0);
            }
            let c_high = ((self.c / 0x80000) % 0x100) as u8;
            self.buffer[self.bp] = c_high;
            self.c = self.c % 0x80000;
            self.ct = 8;
        }
    }

    /// FLUSH (C.2.9): set the final bits, push the last two bytes out,
    /// drop a trailing 0xFF, and return the stream without its sentinel.
    pub fn flush(&mut self) -> (r: Vec<u8>)
        requires
            enc_wf(*old(self)),
        ensures
            final(self).buffer@.len() >= 1,
            r@ == final(self).buffer@.subrange(1, final(self).buffer@.len() as int),
            r@ == flush_spec(
                old(self).a,
                old(self).c,
                old(self).ct as int,
                old(self).bp as int,
                old(self).buffer@,
            ),
    {
        self.set_bits();
        self.c = self.c << (self.ct as u32);
        self.byte_out();
        self.c = self.c << (self.ct as u32);
        self.byte_out();

        // Drop a trailing 0xFF: the decoder regenerates it at the end of
        // the stream.
        let len = self.buffer.len();
        if self.buffer[self.bp] == 0xFF {
            self.buffer.truncate(self.bp);
        } else {
            proof {
                assert(self.bp < len);
            }
            self.buffer.truncate(self.bp + 1);
        }
        if self.buffer.len() == 0 {
            // The two byte-outs always write at least the sentinel slot.
            self.buffer.push(0);
        }

        // The sentinel byte never belongs to the stream.
        let mut out: Vec<u8> = Vec::new();
        let mut i: usize = 1;
        while i < self.buffer.len()
            invariant
                1 <= i <= self.buffer@.len(),
                self.buffer@.len() >= 1,
                out@ == self.buffer@.subrange(1, i as int),
            decreases self.buffer@.len() - i,
        {
            out.push(self.buffer[i]);
            proof {
                assert(out@ == self.buffer@.subrange(1, i + 1));
            }
            i = i + 1;
        }
        out
    }

    /// SETBITS (C.2.9): force the low bits of the code register to one
    /// without leaving the final interval.
    fn set_bits(&mut self)
        ensures
            final(self).a == old(self).a,
            final(self).ct == old(self).ct,
            final(self).bp == old(self).bp,
            final(self).buffer@ == old(self).buffer@,
            final(self).contexts@ == old(self).contexts@,
            ({
                let temp = (old(self).c + old(self).a) % 0x100000000;
                let c1 = (old(self).c / 0x10000) * 0x10000 + 0xFFFF;
                final(self).c == if c1 >= temp {
                    c1 - 0x8000
                } else {
                    c1
                }
            }),
    {
        let temp = self.c.wrapping_add(self.a);
        // Setting the low 16 bits to one.
        self.c = (self.c / 0x10000) * 0x10000 + 0xFFFF;
        if self.c >= temp {
            self.c = self.c - 0x8000;
        }
    }
}

} // verus!

verus! {

/// MQ decoder (C.3): turns compressed bytes back into decisions.
///
/// The registers mirror the encoder's; `buffer` holds the compressed
/// input and `bp` the read position. Past the end of the input the
/// decoder feeds 1-bits forever.
#[derive(Debug)]
pub struct MqDecoder {
    pub a: u32,
    pub c: u32,
    pub ct: i32,
    pub buffer: Vec<u8>,
    pub bp: usize,
    pub contexts: Vec<ContextState>,
}

/// An initialized decoder ready to produce decisions.
pub open spec fn dec_wf(d: MqDecoder) -> bool {
    &&& 0x8000 <= d.a <= 0xFFFF
    &&& 0 <= d.ct <= 8
    &&& d.bp <= d.buffer@.len()
    &&& ctxs_wf(d.contexts@)
}

impl MqDecoder {
    /// Create a decoder with `num_contexts` contexts, all at row 0 with
    /// the more probable symbol 0. `init` must run before decoding.
    pub fn new(num_contexts: usize) -> (r: MqDecoder)
        ensures
            r.contexts@.len() == num_contexts,
            ctxs_wf(r.contexts@),
    {
        let mut contexts: Vec<ContextState> = Vec::new();
        let mut i: usize = 0;
        while i < num_contexts
            invariant
                i <= num_contexts,
                contexts@.len() == i,
                forall|j: int| 0 <= j < i ==> #[trigger] contexts@[j]
                    == (ContextState { index: 0, mps: 0 }),
            decreases num_contexts - i,
        {
            contexts.push(ContextState { index: 0, mps: 0 });
            i = i + 1;
        }
        MqDecoder { a: 0, c: 0, ct: 0, buffer: Vec::new(), bp: 0, contexts }
    }

    /// INITDEC (C.3.5): load the first bytes of the compressed data into
    /// the code register and prime the interval.
    pub fn init(&mut self, data: &[u8])
        requires
            ctxs_wf(old(self).contexts@),
        ensures
            dec_wf(*final(self)),
            final(self).buffer@ == data@,
            final(self).contexts@ == old(self).contexts@,
            final(self).a == 0x8000,
            final(self).c == initdec_c(data@),
            final(self).ct == initdec_ct(data@),
            final(self).bp == initdec_bp(data@),
    {
        let mut buffer: Vec<u8> = Vec::new();
        let mut i: usize = 0;
        while i < data.len()
            invariant
                i <= data@.len(),
                buffer@ == data@.subrange(0, i as int),
            decreases data@.len() - i,
        {
            buffer.push(data[i]);
            proof {
                assert(buffer@ == data@.subrange(0, i + 1));
            }
            i = i + 1;
        }
        proof {
            assert(buffer@ == data@);
        }
        self.buffer = buffer;
        self.bp = 0;
        self.a = 0x8000;
        self.ct = 0;
        self.c = 0;

        // The first byte lands in bits 23 to 16 of the code register.
        if self.bp < self.buffer.len() {
            let b = self.buffer[self.bp];
            self.bp = self.bp + 1;
            self.c = (b as u32) * 0x10000;
        }

        self.byte_in();

        proof {
            let cv = self.c;
            assert(cv << 7u32 == (cv * 128) % 0x100000000) by (bit_vector);
        }
        self.c = self.c << 7u32;
        self.ct = self.ct - 7;
        self.a = 0x8000;
    }

    /// Reset the 19 coding contexts to their standard initial rows, as
    /// on the encoder.
    pub fn reset_contexts(&mut self)
        requires
            old(self).contexts@.len() == 19,
        ensures
            final(self).contexts@.len() == 19,
            ctxs_wf(final(self).contexts@),
            forall|i: int| 0 <= i < 19 ==> (#[trigger] final(self).contexts@[i]).mps == 0,
            final(self).contexts@[UNIFORM as int].index == 46,
            final(self).contexts@[RUN_LEN as int].index == 3,
            final(self).contexts@[ZERO_CTX as int].index == 4,
            forall|i: int| 0 <= i < 19 && i != UNIFORM && i != RUN_LEN && i != ZERO_CTX ==>
                (#[trigger] final(self).contexts@[i]).index == 0,
            final(self).a == old(self).a,
            final(self).c == old(self).c,
            final(self).ct == old(self).ct,
            final(self).bp == old(self).bp,
            final(self).buffer@ == old(self).buffer@,
    {
        let mut i: usize = 0;
        while i < 19
            invariant
                i <= 19,
                self.contexts@.len() == 19,
                forall|j: int| 0 <= j < i ==> #[trigger] self.contexts@[j]
                    == (ContextState { index: 0, mps: 0 }),
                self.a == old(self).a,
                self.c == old(self).c,
                self.ct == old(self).ct,
                self.bp == old(self).bp,
                self.buffer@ == old(self).buffer@,
            decreases 19 - i,
        {
            self.contexts[i] = ContextState { index: 0, mps: 0 };
            i = i + 1;
        }
        self.contexts[UNIFORM] = ContextState { index: 46, mps: 0 };
        self.contexts[RUN_LEN] = ContextState { index: 3, mps: 0 };
        self.contexts[ZERO_CTX] = ContextState { index: 4, mps: 0 };
    }

    /// DECODE (C.3.2): produce the next decision of context `cx`. The
    /// decision is exactly [`dec_decision`] of the registers and the
    /// context, which adapts exactly as [`dec_ctx_after`] says.
    pub fn decode(&mut self, cx: usize) -> (r: u8)
        requires
            dec_wf(*old(self)),
            cx < old(self).contexts@.len(),
        ensures
            dec_wf(*final(self)),
            r == dec_decision(old(self).a, old(self).c, old(self).contexts@[cx as int]),
            final(self).contexts@ == old(self).contexts@.update(
                cx as int,
                dec_ctx_after(old(self).a, old(self).c, old(self).contexts@[cx as int]),
            ),
            final(self).buffer@ == old(self).buffer@,
            r <= 1,
            ({
                let row = spec_qe_entry(old(self).contexts@[cx as int].index as int);
                let qe = row.qe as int;
                let a1 = old(self).a - qe;
                let buf = old(self).buffer@;
                if old(self).c / 0x10000 < qe {
                    let rr = renormd_spec(
                        qe,
                        old(self).c as int,
                        old(self).ct as int,
                        old(self).bp as int,
                        buf,
                    );
                    final(self).a == rr.0 && final(self).c == rr.1 && final(self).ct == rr.2
                        && final(self).bp == rr.3
                } else {
                    let c2 = old(self).c - qe * 0x10000;
                    if a1 < 0x8000 {
                        let rr = renormd_spec(
                            a1,
                            c2,
                            old(self).ct as int,
                            old(self).bp as int,
                            buf,
                        );
                        final(self).a == rr.0 && final(self).c == rr.1
                            && final(self).ct == rr.2 && final(self).bp == rr.3
                    } else {
                        final(self).a == a1 && final(self).c == c2
                            && final(self).ct == old(self).ct
                            && final(self).bp == old(self).bp
                    }
                }
            }),
    {
        let index = self.contexts[cx].index as usize;
        let row = qe_row(index);
        proof {
            lemma_qe_entry_bounds(index as int);
        }
        let qe = row.qe as u32;

        self.a = self.a - qe;
        let c_high = self.c / 0x10000;

        if c_high < qe {
            let d = self.lps_exchange(cx);
            self.renorm_d();
            d
        } else {
            proof {
                assert(self.c / 0x10000 * 0x10000 + self.c % 0x10000 == self.c);
                assert(qe * 0x10000 <= self.c / 0x10000 * 0x10000);
            }
            self.c = self.c.wrapping_sub(qe * 0x10000);
            if self.a < 0x8000 {
                let d = self.mps_exchange(cx);
                self.renorm_d();
                d
            } else {
                self.contexts[cx].mps
            }
        }
    }

    /// MPS_EXCHANGE (C.3.2): after a shrink below the estimate the
    /// senses swap, so the decision may be the less probable symbol.
    fn mps_exchange(&mut self, cx: usize) -> (r: u8)
        requires
            ctxs_wf(old(self).contexts@),
            cx < old(self).contexts@.len(),
        ensures
            ctxs_wf(final(self).contexts@),
            old(self).a < spec_qe_entry(old(self).contexts@[cx as int].index as int).qe
                ==> r == 1 - old(self).contexts@[cx as int].mps
                    && final(self).contexts@ == old(self).contexts@.update(
                        cx as int,
                        ctx_on_lps(old(self).contexts@[cx as int]),
                    ),
            old(self).a >= spec_qe_entry(old(self).contexts@[cx as int].index as int).qe
                ==> r == old(self).contexts@[cx as int].mps
                    && final(self).contexts@ == old(self).contexts@.update(
                        cx as int,
                        (ContextState {
                            index: spec_qe_entry(
                                old(self).contexts@[cx as int].index as int,
                            ).nmps,
                            mps: old(self).contexts@[cx as int].mps,
                        }),
                    ),
            final(self).a == old(self).a,
            final(self).c == old(self).c,
            final(self).ct == old(self).ct,
            final(self).bp == old(self).bp,
            final(self).buffer@ == old(self).buffer@,
            r <= 1,
    {
        let index = self.contexts[cx].index as usize;
        let row = qe_row(index);
        proof {
            lemma_qe_entry_bounds(index as int);
        }
        let qe = row.qe as u32;

        if self.a < qe {
            // Conditional exchange: the less probable symbol came out.
            let old_mps = self.contexts[cx].mps;
            let d = 1 - old_mps;
            let new_mps: u8 = if row.switch { 1 - old_mps } else { old_mps };
            self.contexts[cx] = ContextState { index: row.nlps, mps: new_mps };
            d
        } else {
            let d = self.contexts[cx].mps;
            self.contexts[cx] = ContextState { index: row.nmps, mps: d };
            d
        }
    }

    /// LPS_EXCHANGE (C.3.2): the interval below the estimate decodes
    /// either symbol depending on the exchange, and becomes the
    /// estimate.
    fn lps_exchange(&mut self, cx: usize) -> (r: u8)
        requires
            ctxs_wf(old(self).contexts@),
            cx < old(self).contexts@.len(),
        ensures
            ctxs_wf(final(self).contexts@),
            old(self).a < spec_qe_entry(old(self).contexts@[cx as int].index as int).qe
                ==> r == old(self).contexts@[cx as int].mps
                    && final(self).contexts@ == old(self).contexts@.update(
                        cx as int,
                        (ContextState {
                            index: spec_qe_entry(
                                old(self).contexts@[cx as int].index as int,
                            ).nmps,
                            mps: old(self).contexts@[cx as int].mps,
                        }),
                    ),
            old(self).a >= spec_qe_entry(old(self).contexts@[cx as int].index as int).qe
                ==> r == 1 - old(self).contexts@[cx as int].mps
                    && final(self).contexts@ == old(self).contexts@.update(
                        cx as int,
                        ctx_on_lps(old(self).contexts@[cx as int]),
                    ),
            1 <= final(self).a <= 0xFFFF,
            final(self).a == spec_qe_entry(old(self).contexts@[cx as int].index as int).qe,
            final(self).c == old(self).c,
            final(self).ct == old(self).ct,
            final(self).bp == old(self).bp,
            final(self).buffer@ == old(self).buffer@,
            r <= 1,
    {
        let index = self.contexts[cx].index as usize;
        let row = qe_row(index);
        proof {
            lemma_qe_entry_bounds(index as int);
        }
        let qe = row.qe as u32;

        if self.a < qe {
            // Conditional exchange: the more probable symbol came out.
            self.a = qe;
            let d = self.contexts[cx].mps;
            self.contexts[cx] = ContextState { index: row.nmps, mps: d };
            d
        } else {
            self.a = qe;
            let old_mps = self.contexts[cx].mps;
            let d = 1 - old_mps;
            let new_mps: u8 = if row.switch { 1 - old_mps } else { old_mps };
            self.contexts[cx] = ContextState { index: row.nlps, mps: new_mps };
            d
        }
    }

    /// RENORMD (C.3.3): double the interval until its top bit returns,
    /// reading bytes into the code register as the bit counter runs out.
    fn renorm_d(&mut self)
        requires
            1 <= old(self).a <= 0xFFFF,
            0 <= old(self).ct <= 8,
            old(self).bp <= old(self).buffer@.len(),
            ctxs_wf(old(self).contexts@),
        ensures
            0x8000 <= final(self).a <= 0xFFFF,
            0 <= final(self).ct <= 8,
            final(self).bp <= final(self).buffer@.len(),
            final(self).contexts@ == old(self).contexts@,
            final(self).buffer@ == old(self).buffer@,
            ({
                let rr = renormd_spec(
                    old(self).a as int,
                    old(self).c as int,
                    old(self).ct as int,
                    old(self).bp as int,
                    old(self).buffer@,
                );
                final(self).a == rr.0 && final(self).c == rr.1 && final(self).ct == rr.2
                    && final(self).bp == rr.3
            }),
    {
        loop
            invariant
                1 <= self.a < 0x10000,
                0 <= self.ct <= 8,
                self.bp <= self.buffer@.len(),
                self.contexts@ == old(self).contexts@,
                self.buffer@ == old(self).buffer@,
                renormd_spec(
                    old(self).a as int,
                    old(self).c as int,
                    old(self).ct as int,
                    old(self).bp as int,
                    old(self).buffer@,
                ) == renormd_spec(
                    self.a as int,
                    self.c as int,
                    self.ct as int,
                    self.bp as int,
                    self.buffer@,
                ),
            ensures
                0x8000 <= self.a <= 0xFFFF,
                0 <= self.ct <= 8,
                self.bp <= self.buffer@.len(),
                self.contexts@ == old(self).contexts@,
                self.buffer@ == old(self).buffer@,
                ({
                    let rr = renormd_spec(
                        old(self).a as int,
                        old(self).c as int,
                        old(self).ct as int,
                        old(self).bp as int,
                        old(self).buffer@,
                    );
                    self.a == rr.0 && self.c == rr.1 && self.ct == rr.2 && self.bp == rr.3
                }),
            decreases 0x10000 - self.a,
        {
            if self.a >= 0x8000 {
                break;
            }
            if self.ct == 0 {
                self.byte_in();
            }

            self.a = self.a * 2;
            proof {
                let cv = self.c;
                assert(cv << 1u32 == (cv * 2) % 0x100000000) by (bit_vector);
            }
            self.c = self.c << 1u32;
            self.ct = self.ct - 1;

            if self.a >= 0x8000 {
                break;
            }
        }
    }

    /// BYTEIN (C.3.4): feed the next byte into bits 15 to 8 of the code
    /// register; after a 0xFF byte only 7 bits enter, and a marker or
    /// the end of the data feeds 1-bits instead.
    fn byte_in(&mut self)
        requires
            old(self).bp <= old(self).buffer@.len(),
        ensures
            final(self).bp <= final(self).buffer@.len(),
            7 <= final(self).ct <= 8,
            final(self).a == old(self).a,
            final(self).contexts@ == old(self).contexts@,
            final(self).buffer@ == old(self).buffer@,
            ({
                let r = bytein_spec(old(self).buffer@, old(self).bp as int, old(self).c as int);
                &&& final(self).bp == r.0
                &&& final(self).c == r.1
                &&& final(self).ct == r.2
            }),
    {
        let len = self.buffer.len();
        if self.bp >= len {
            // Past the end of the data: feed 1-bits.
            self.c = self.c.wrapping_add(0xFF00);
            self.ct = 8;
            return;
        }

        let b = self.buffer[self.bp] as u32;

        if b == 0xFF {
            if self.bp + 1 < len {
                let b1 = self.buffer[self.bp + 1];
                if b1 > 0x8F {
                    // A marker begins here: feed 1-bits from now on.
                    self.c = self.c.wrapping_add(0xFF00);
                    self.ct = 8;
                } else {
                    // A stuffed byte follows the 0xFF: only 7 bits of it
                    // are fresh.
                    self.bp = self.bp + 1;
                    self.c = self.c.wrapping_add(b * 0x200);
                    self.ct = 7;
                }
            } else {
                self.c = self.c.wrapping_add(0xFF00);
                self.ct = 8;
            }
        } else {
            self.bp = self.bp + 1;
            self.c = self.c.wrapping_add(b * 0x100);
            self.ct = 8;
        }
    }
}

} // verus!
