use vstd::prelude::*;

verus! {

/// The operand fields of a 16-bit instruction word.
#[derive(Clone, Copy, Debug, PartialEq, Eq, Structural)]
pub struct OppCodeData {
    /// 12-bit address (bits 0-11).
    pub nnn: u16,
    /// 8-bit immediate (bits 0-7).
    pub nn: u8,
    /// 4-bit count (bits 0-3).
    pub n: u8,
    /// Register index in bits 8-11.
    pub x: u8,
    /// Register index in bits 4-7.
    pub y: u8,
}

/// The fields of `op`, stated arithmetically.
pub open spec fn decoded(op: u16) -> OppCodeData {
    OppCodeData {
        nnn: (op % 0x1000) as u16,
        nn: (op % 0x100) as u8,
        n: (op % 0x10) as u8,
        x: ((op / 0x100) % 0x10) as u8,
        y: ((op / 0x10) % 0x10) as u8,
    }
}

impl OppCodeData {
    /// Every field lies within its bit width.
    pub open spec fn wf(&self) -> bool {
        &&& self.nnn < 0x1000
        &&& self.n < 0x10
        &&& self.x < 0x10
        &&& self.y < 0x10
    }

    /// Decodes `oppcode` into its operand fields.
    pub fn new(oppcode: u16) -> (r: OppCodeData)
        ensures
            r == decoded(oppcode),
            r.wf(),
    {
        let nnn_: u16 = oppcode & 0x0FFF;
        let nn_: u8 = (oppcode & 0x00FF) as u8;
        let n_: u8 = (oppcode & 0x000F) as u8;
        let x_: u8 = ((oppcode & 0x0F00) >> 8) as u8;
        let y_: u8 = ((oppcode & 0x00F0) >> 4) as u8;
        assert(oppcode & 0x0FFF == oppcode % 0x1000) by (bit_vector);
        assert(oppcode & 0x00FF == oppcode % 0x100) by (bit_vector);
        assert(oppcode & 0x000F == oppcode % 0x10) by (bit_vector);
        assert((oppcode & 0x0F00) >> 8 == (oppcode / 0x100) % 0x10) by (bit_vector);
        assert((oppcode & 0x00F0) >> 4 == (oppcode / 0x10) % 0x10) by (bit_vector);
        OppCodeData { nnn: nnn_, nn: nn_, n: n_, x: x_, y: y_ }
    }

    /// Replaces every field with those decoded from `oppcode`.
    pub fn init(&mut self, oppcode: u16)
        ensures
            *final(self) == decoded(oppcode),
            final(self).wf(),
    {
        *self = OppCodeData::new(oppcode);
    }
}

} // verus!
