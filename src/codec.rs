use vstd::prelude::*;

verus! {

/// Number of bytes before the checksum: opcode, operands and zero padding.
pub const BODY_LEN: usize = 19;

/// Total length of every command frame.
pub const FRAME_LEN: usize = 20;

/// The value the checksum fold starts from.
pub const CHECKSUM_SEED: u8 = 0;

/// Why a command could not be framed.
#[derive(Clone, Copy, Debug, PartialEq, Eq, Structural)]
pub enum FrameError {
    /// The opcode and operands alone are longer than the frame body.
    InvalidOperandLength,
}

/// Bitwise XOR of all bytes of `s`.
pub open spec fn xor_fold(s: Seq<u8>) -> u8
    decreases s.len(),
{
    if s.len() == 0 {
        CHECKSUM_SEED
    } else {
        xor_fold(s.drop_last()) ^ s.last()
    }
}

/// `s` followed by zero bytes up to the body length.
pub open spec fn padded_body(s: Seq<u8>) -> Seq<u8> {
    s + Seq::new((BODY_LEN - s.len()) as nat, |i: int| 0u8)
}

/// The frame of a command: padded body, then the checksum of that body.
pub open spec fn frame_of(s: Seq<u8>) -> Seq<u8> {
    padded_body(s).push(xor_fold(padded_body(s)))
}

/// Pads `cmd` with zero bytes to the body length and appends the XOR checksum
/// of the padded body. A command longer than the body is refused and left as
/// it is.
pub fn fill_and_sum(cmd: &mut Vec<u8>) -> (r: Result<(), FrameError>)
    ensures
        old(cmd)@.len() <= BODY_LEN ==> r is Ok && final(cmd)@ == frame_of(old(cmd)@),
        old(cmd)@.len() <= BODY_LEN ==> final(cmd)@.len() == FRAME_LEN
            && final(cmd)@[BODY_LEN as int] == xor_fold(final(cmd)@.subrange(0, BODY_LEN as int)),
        old(cmd)@.len() > BODY_LEN ==> r == Err::<(), FrameError>(FrameError::InvalidOperandLength)
            && final(cmd)@ == old(cmd)@,
{
    if cmd.len() > BODY_LEN {
        return Err(FrameError::InvalidOperandLength);
    }
    pad_and_checksum(cmd);
    Ok(())
}

fn pad_and_checksum(cmd: &mut Vec<u8>)
    requires
        old(cmd)@.len() <= BODY_LEN,
    ensures
        final(cmd)@ == frame_of(old(cmd)@),
        final(cmd)@.len() == FRAME_LEN,
        final(cmd)@.subrange(0, old(cmd)@.len() as int) == old(cmd)@,
        forall|i: int| old(cmd)@.len() <= i < BODY_LEN ==> final(cmd)@[i] == 0u8,
        final(cmd)@[BODY_LEN as int] == xor_fold(final(cmd)@.subrange(0, BODY_LEN as int)),
{
    let ghost start = cmd@;
    while cmd.len() < BODY_LEN
        invariant
            start.len() <= cmd@.len() <= BODY_LEN,
            cmd@ == start + Seq::new((cmd@.len() - start.len()) as nat, |i: int| 0u8),
        decreases BODY_LEN - cmd@.len(),
    {
        cmd.push(0u8);
        assert(cmd@ =~= start + Seq::new((cmd@.len() - start.len()) as nat, |i: int| 0u8));
    }
    assert(cmd@ =~= padded_body(start));
    let mut sum: u8 = CHECKSUM_SEED;
    let mut i: usize = 0;
    while i < cmd.len()
        invariant
            cmd@ == padded_body(start),
            cmd@.len() == BODY_LEN,
            i <= cmd@.len(),
            sum == xor_fold(cmd@.subrange(0, i as int)),
        decreases cmd@.len() - i,
    {
        assert(cmd@.subrange(0, (i + 1) as int).drop_last() =~= cmd@.subrange(0, i as int));
        sum = sum ^ cmd[i];
        i = i + 1;
    }
    assert(cmd@.subrange(0, BODY_LEN as int) =~= cmd@);
    cmd.push(sum);
    assert(cmd@.subrange(0, BODY_LEN as int) =~= padded_body(start));
    assert(cmd@.subrange(0, start.len() as int) =~= start);
}

/// Builds the frame of a command given as opcode followed by operands.
pub fn encode(cmd: &Vec<u8>) -> (r: Result<Vec<u8>, FrameError>)
    ensures
        cmd@.len() <= BODY_LEN ==> r is Ok && r->Ok_0@ == frame_of(cmd@),
        cmd@.len() <= BODY_LEN ==> r->Ok_0@.len() == FRAME_LEN
            && r->Ok_0@[BODY_LEN as int] == xor_fold(r->Ok_0@.subrange(0, BODY_LEN as int)),
        cmd@.len() > BODY_LEN ==> r == Err::<Vec<u8>, FrameError>(FrameError::InvalidOperandLength),
{
    if cmd.len() > BODY_LEN {
        return Err(FrameError::InvalidOperandLength);
    }
    let mut frame = cmd.clone();
    pad_and_checksum(&mut frame);
    Ok(frame)
}

/// Opcode of the colour command family.
pub const OP_COLOR: u8 = 0x33;

/// Opcode of the keep-alive command.
pub const OP_KEEP_ALIVE: u8 = 0xAA;

/// Operands of a set-colour command, followed by red, green and blue.
pub open spec fn set_color_body(r: u8, g: u8, b: u8) -> Seq<u8> {
    seq![OP_COLOR, 0x05u8, 0x02u8, r, g, b]
}

/// Body of the keep-alive command.
pub open spec fn keep_alive_body() -> Seq<u8> {
    seq![OP_KEEP_ALIVE, 0x01u8]
}

/// Body of the power-off command.
pub open spec fn power_off_body() -> Seq<u8> {
    seq![OP_COLOR, 0x01u8, 0x00u8]
}

/// Frame that sets a fixture to the colour `(r, g, b)`.
pub fn set_color_command(r: u8, g: u8, b: u8) -> (f: Vec<u8>)
    ensures
        f@ == frame_of(set_color_body(r, g, b)),
{
    let mut cmd: Vec<u8> = vec![OP_COLOR, 0x05u8, 0x02u8, r, g, b];
    assert(cmd@ =~= set_color_body(r, g, b));
    pad_and_checksum(&mut cmd);
    cmd
}

/// Frame that keeps the link to a fixture alive.
pub fn keep_alive_command() -> (f: Vec<u8>)
    ensures
        f@ == frame_of(keep_alive_body()),
{
    let mut cmd: Vec<u8> = vec![OP_KEEP_ALIVE, 0x01u8];
    assert(cmd@ =~= keep_alive_body());
    pad_and_checksum(&mut cmd);
    cmd
}

/// Frame that switches a fixture off.
pub fn power_off_command() -> (f: Vec<u8>)
    ensures
        f@ == frame_of(power_off_body()),
{
    let mut cmd: Vec<u8> = vec![OP_COLOR, 0x01u8, 0x00u8];
    assert(cmd@ =~= power_off_body());
    pad_and_checksum(&mut cmd);
    cmd
}

} // verus!
