use crate::byte_reader::be_u32_at;
use crate::dlcommands::g_cleargeometrymode::G_CLEARGEOMETRYMODE;
use crate::dlcommands::g_dl::G_DL;
use crate::dlcommands::g_enddl::G_ENDDL;
use crate::dlcommands::g_popmtx::G_POPMTX;
use crate::dlcommands::g_rdppipesync::G_RDPPIPESYNC;
use crate::dlcommands::g_setcombine::G_SETCOMBINE;
use crate::dlcommands::g_setgeometrymode::G_SETGEOMETRYMODE;
use crate::dlcommands::g_setothermode_h::G_SetOtherMode_H;
use crate::dlcommands::g_setothermode_l::G_SetOtherMode_L;
use crate::dlcommands::g_settimg::G_SETTIMG;
use crate::dlcommands::g_spnoop::G_SPNOOP;
use crate::dlcommands::g_texture::G_TEXTURE;
use crate::dlcommands::g_tri2::G_TRI2;
use crate::dlcommands::g_vtx::G_VTX;
use crate::dlcommands::unknown::Unknown;
use crate::errors::Error;
use vstd::prelude::*;

verus! {

/// One decoded eight-byte display-list command word.
#[allow(non_camel_case_types)]
#[derive(Clone, Copy, Debug)]
pub enum DisplayListCommand {
    Unknown(Unknown),
    G_CLEARGEOMETRYMODE(G_CLEARGEOMETRYMODE),
    G_DL(G_DL),
    G_ENDDL(G_ENDDL),
    G_POPMTX(G_POPMTX),
    G_RDPPIPESYNC(G_RDPPIPESYNC),
    G_SETCOMBINE(G_SETCOMBINE),
    G_SETGEOMETRYMODE(G_SETGEOMETRYMODE),
    G_SetOtherMode_L(G_SetOtherMode_L),
    G_SetOtherMode_H(G_SetOtherMode_H),
    G_SETTIMG(G_SETTIMG),
    G_SPNOOP(G_SPNOOP),
    G_TEXTURE(G_TEXTURE),
    G_TRI2(G_TRI2),
    G_VTX(G_VTX),
}

/// Whether an opcode byte stands in the dispatch table.
pub open spec fn spec_known_opcode(b: u8) -> bool {
    ||| b == 0x00
    ||| b == 0x04
    ||| b == 0x06
    ||| b == 0xB1
    ||| b == 0xB6
    ||| b == 0xB7
    ||| b == 0xB8
    ||| b == 0xB9
    ||| b == 0xBA
    ||| b == 0xBB
    ||| b == 0xBD
    ||| b == 0xE7
    ||| b == 0xFC
    ||| b == 0xFD
}

/// What decoding an eight-byte word yields: the first byte picks the command
/// kind, whose fields come from that word alone; a byte outside the table
/// yields Unknown carrying the word verbatim.
pub open spec fn spec_command_ok(c: DisplayListCommand, w: Seq<u8>) -> bool {
    if w[0] == 0x00 {
        c == DisplayListCommand::G_SPNOOP(G_SPNOOP {  })
    } else if w[0] == 0x04 {
        c == DisplayListCommand::G_VTX(G_VTX::spec_new(w))
    } else if w[0] == 0x06 {
        c == DisplayListCommand::G_DL(G_DL::spec_new(w))
    } else if w[0] == 0xB1 {
        c == DisplayListCommand::G_TRI2(G_TRI2::spec_new(w))
    } else if w[0] == 0xB6 {
        c == DisplayListCommand::G_CLEARGEOMETRYMODE(G_CLEARGEOMETRYMODE {  })
    } else if w[0] == 0xB7 {
        c == DisplayListCommand::G_SETGEOMETRYMODE(G_SETGEOMETRYMODE {  })
    } else if w[0] == 0xB8 {
        c == DisplayListCommand::G_ENDDL(G_ENDDL {  })
    } else if w[0] == 0xB9 {
        c == DisplayListCommand::G_SetOtherMode_L(G_SetOtherMode_L {  })
    } else if w[0] == 0xBA {
        c == DisplayListCommand::G_SetOtherMode_H(G_SetOtherMode_H {  })
    } else if w[0] == 0xBB {
        c == DisplayListCommand::G_TEXTURE(G_TEXTURE::spec_new(w))
    } else if w[0] == 0xBD {
        c == DisplayListCommand::G_POPMTX(G_POPMTX::spec_new(w))
    } else if w[0] == 0xE7 {
        c == DisplayListCommand::G_RDPPIPESYNC(G_RDPPIPESYNC {  })
    } else if w[0] == 0xFC {
        c == DisplayListCommand::G_SETCOMBINE(G_SETCOMBINE {  })
    } else if w[0] == 0xFD {
        c == DisplayListCommand::G_SETTIMG(G_SETTIMG::spec_new(w))
    } else {
        c matches DisplayListCommand::Unknown(u) && u.cmd@ == w
    }
}

/// Every opcode byte of the dispatch table decodes to its own command kind.
pub proof fn lemma_dispatch_table(c: DisplayListCommand, w: Seq<u8>)
    requires
        w.len() == 8,
        spec_command_ok(c, w),
    ensures
        w[0] == 0x00 ==> c is G_SPNOOP,
        w[0] == 0x04 ==> c is G_VTX,
        w[0] == 0x06 ==> c is G_DL,
        w[0] == 0xB1 ==> c is G_TRI2,
        w[0] == 0xB6 ==> c is G_CLEARGEOMETRYMODE,
        w[0] == 0xB7 ==> c is G_SETGEOMETRYMODE,
        w[0] == 0xB8 ==> c is G_ENDDL,
        w[0] == 0xB9 ==> c is G_SetOtherMode_L,
        w[0] == 0xBA ==> c is G_SetOtherMode_H,
        w[0] == 0xBB ==> c is G_TEXTURE,
        w[0] == 0xBD ==> c is G_POPMTX,
        w[0] == 0xE7 ==> c is G_RDPPIPESYNC,
        w[0] == 0xFC ==> c is G_SETCOMBINE,
        w[0] == 0xFD ==> c is G_SETTIMG,
{
}

/// A first byte outside the dispatch table decodes to Unknown, and the
/// Unknown command keeps the eight bytes exactly.
pub proof fn lemma_dispatch_unknown(c: DisplayListCommand, w: Seq<u8>)
    requires
        w.len() == 8,
        spec_command_ok(c, w),
        !spec_known_opcode(w[0]),
    ensures
        (c matches DisplayListCommand::Unknown(u) && u.cmd@ == w),
{
}

/// A word with opcode 0x06 decodes to a display-list call: byte 1 zero means
/// the return address is stored, and bytes 4..8 are the branch address,
/// big-endian.
pub proof fn lemma_call_display_list_fields(c: DisplayListCommand, w: Seq<u8>)
    requires
        w.len() == 8,
        w[0] == 0x06,
        spec_command_ok(c, w),
    ensures
        (c matches DisplayListCommand::G_DL(d) && d.m_store_return_address == (w[1] == 0)
            && d.m_branch_segmented_address == be_u32_at(w, 4)),
{
}

impl DisplayListCommand {
    /// Decodes an eight-byte command word. An unrecognized opcode is not a
    /// failure: it decodes to Unknown.
    pub fn parse(bytes: [u8; 8]) -> (r: Result<DisplayListCommand, Error>)
        ensures
            (r matches Ok(c) && spec_command_ok(c, bytes@)),
    {
        match bytes[0] {
            0x00 => Ok(DisplayListCommand::G_SPNOOP(G_SPNOOP::new(bytes)?)),
            0x04 => Ok(DisplayListCommand::G_VTX(G_VTX::new(bytes)?)),
            0x06 => Ok(DisplayListCommand::G_DL(G_DL::new(bytes)?)),
            0xB1 => Ok(DisplayListCommand::G_TRI2(G_TRI2::new(bytes)?)),
            0xB6 => Ok(DisplayListCommand::G_CLEARGEOMETRYMODE(G_CLEARGEOMETRYMODE::new(bytes)?)),
            0xB7 => Ok(DisplayListCommand::G_SETGEOMETRYMODE(G_SETGEOMETRYMODE::new(bytes)?)),
            0xB8 => Ok(DisplayListCommand::G_ENDDL(G_ENDDL::new(bytes)?)),
            0xB9 => Ok(DisplayListCommand::G_SetOtherMode_L(G_SetOtherMode_L::new(bytes)?)),
            0xBA => Ok(DisplayListCommand::G_SetOtherMode_H(G_SetOtherMode_H::new(bytes)?)),
            0xBB => Ok(DisplayListCommand::G_TEXTURE(G_TEXTURE::new(bytes)?)),
            0xBD => Ok(DisplayListCommand::G_POPMTX(G_POPMTX::new(bytes)?)),
            0xE7 => Ok(DisplayListCommand::G_RDPPIPESYNC(G_RDPPIPESYNC::new(bytes)?)),
            0xFC => Ok(DisplayListCommand::G_SETCOMBINE(G_SETCOMBINE::new(bytes)?)),
            0xFD => Ok(DisplayListCommand::G_SETTIMG(G_SETTIMG::new(bytes)?)),
            _ => Ok(DisplayListCommand::Unknown(Unknown::new(bytes)?)),
        }
    }

    /// The listing line of the command this word decoded to.
    pub open spec fn spec_psuedo_code(self) -> Seq<char> {
        match self {
            DisplayListCommand::Unknown(s) => s.spec_psuedo_code(),
            DisplayListCommand::G_CLEARGEOMETRYMODE(s) => s.spec_psuedo_code(),
            DisplayListCommand::G_DL(s) => s.spec_psuedo_code(),
            DisplayListCommand::G_ENDDL(s) => s.spec_psuedo_code(),
            DisplayListCommand::G_POPMTX(s) => s.spec_psuedo_code(),
            DisplayListCommand::G_RDPPIPESYNC(s) => s.spec_psuedo_code(),
            DisplayListCommand::G_SETCOMBINE(s) => s.spec_psuedo_code(),
            DisplayListCommand::G_SETGEOMETRYMODE(s) => s.spec_psuedo_code(),
            DisplayListCommand::G_SetOtherMode_L(s) => s.spec_psuedo_code(),
            DisplayListCommand::G_SetOtherMode_H(s) => s.spec_psuedo_code(),
            DisplayListCommand::G_SETTIMG(s) => s.spec_psuedo_code(),
            DisplayListCommand::G_SPNOOP(s) => s.spec_psuedo_code(),
            DisplayListCommand::G_TEXTURE(s) => s.spec_psuedo_code(),
            DisplayListCommand::G_TRI2(s) => s.spec_psuedo_code(),
            DisplayListCommand::G_VTX(s) => s.spec_psuedo_code(),
        }
    }

    /// Renders the command as one listing line.
    pub fn psuedo_code(&self) -> (r: String)
        ensures
            r@ == self.spec_psuedo_code(),
    {
        match self {
            DisplayListCommand::Unknown(s) => s.psuedo_code(),
            DisplayListCommand::G_CLEARGEOMETRYMODE(s) => s.psuedo_code(),
            DisplayListCommand::G_DL(s) => s.psuedo_code(),
            DisplayListCommand::G_ENDDL(s) => s.psuedo_code(),
            DisplayListCommand::G_POPMTX(s) => s.psuedo_code(),
            DisplayListCommand::G_RDPPIPESYNC(s) => s.psuedo_code(),
            DisplayListCommand::G_SETCOMBINE(s) => s.psuedo_code(),
            DisplayListCommand::G_SETGEOMETRYMODE(s) => s.psuedo_code(),
            DisplayListCommand::G_SetOtherMode_L(s) => s.psuedo_code(),
            DisplayListCommand::G_SetOtherMode_H(s) => s.psuedo_code(),
            DisplayListCommand::G_SETTIMG(s) => s.psuedo_code(),
            DisplayListCommand::G_SPNOOP(s) => s.psuedo_code(),
            DisplayListCommand::G_TEXTURE(s) => s.psuedo_code(),
            DisplayListCommand::G_TRI2(s) => s.psuedo_code(),
            DisplayListCommand::G_VTX(s) => s.psuedo_code(),
        }
    }
}

/// The ordered command sequence of a model, append-only during parse.
pub struct DisplayList {
    pub commands: Vec<DisplayListCommand>,
}

impl DisplayList {
    /// Creates an empty display list.
    pub fn new() -> (r: DisplayList)
        ensures
            r.commands@.len() == 0,
    {
        DisplayList { commands: Vec::new() }
    }

    /// Appends one command.
    pub fn add_command(&mut self, command: DisplayListCommand)
        ensures
            final(self).commands@ == old(self).commands@.push(command),
    {
        self.commands.push(command);
    }

    /// How many commands the list holds.
    pub fn command_count(&self) -> (r: usize)
        ensures
            r == self.commands@.len(),
    {
        self.commands.len()
    }

    /// The commands, in the order they were read.
    pub fn commands(&self) -> (r: &Vec<DisplayListCommand>)
        ensures
            r@ == self.commands@,
    {
        &self.commands
    }
}

} // verus!
