//! Incremental recognition of the gzip container's header.
//!
//! A gzip stream opens with a fixed ten-byte header — two magic bytes, the
//! compression method, a flag byte, and six bytes of metadata — followed by
//! optional fields the flag byte announces: an extra block with its own
//! two-byte little-endian length, a zero-terminated file name, a
//! zero-terminated comment, and a two-byte header checksum.  After the
//! header comes a bare deflate body.
//!
//! The parser here consumes the header one byte at a time, so it works
//! however the stream is cut into chunks.  Its whole behaviour is the
//! transition function [`header_step`], which the byte-feeding method
//! mirrors exactly.

use vstd::prelude::*;

verus! {

/// The first magic byte every gzip stream opens with.
pub const GZIP_MAGIC0: u8 = 0x1f;

/// The second magic byte.
pub const GZIP_MAGIC1: u8 = 0x8b;

/// Flag bit announcing the two-byte header checksum field.
pub const FLAG_HEADER_CRC: u8 = 2;

/// Flag bit announcing the extra block.
pub const FLAG_EXTRA: u8 = 4;

/// Flag bit announcing the zero-terminated file name.
pub const FLAG_NAME: u8 = 8;

/// Flag bit announcing the zero-terminated comment.
pub const FLAG_COMMENT: u8 = 16;

/// Where in the header the parser stands: which byte it expects next.
#[derive(Clone, Copy, PartialEq, Eq, Structural, Debug)]
pub enum HeaderStage {
    /// The first magic byte, 0x1f.
    Magic0,
    /// The second magic byte, 0x8b.
    Magic1,
    /// The compression method byte, 8 for deflate.
    Method,
    /// The flag byte.
    Flags,
    /// The rest of the fixed header — modification time, extra flags and
    /// operating system — whose `left` remaining bytes are skipped.
    Meta { left: u8 },
    /// The low byte of the extra block's length.
    ExtraLen0,
    /// The high byte of the extra block's length.
    ExtraLen1 { lo: u8 },
    /// The extra block itself, `rest` bytes remaining, skipped.
    Extra { rest: u16 },
    /// The zero-terminated file name, skipped.
    Name,
    /// The zero-terminated comment, skipped.
    Comment,
    /// The header checksum, `left` bytes remaining, skipped.
    HeaderCrc { left: u8 },
    /// The whole header has been read; what follows is the deflate body.
    Complete,
}

/// Consumes a gzip header byte by byte.
#[derive(Clone, Copy, PartialEq, Eq, Structural, Debug)]
pub struct GzipHeaderParser {
    pub stage: HeaderStage,
    pub flags: u8,
}

/// The stage after the extra block (or at once, when none was announced).
pub open spec fn after_extra(flags: u8) -> HeaderStage {
    if flags & FLAG_NAME != 0 {
        HeaderStage::Name
    } else {
        after_name(flags)
    }
}

/// The stage after the file name (or at once, when none was announced).
pub open spec fn after_name(flags: u8) -> HeaderStage {
    if flags & FLAG_COMMENT != 0 {
        HeaderStage::Comment
    } else {
        after_comment(flags)
    }
}

/// The stage after the comment (or at once, when none was announced).
pub open spec fn after_comment(flags: u8) -> HeaderStage {
    if flags & FLAG_HEADER_CRC != 0 {
        HeaderStage::HeaderCrc { left: 2 }
    } else {
        HeaderStage::Complete
    }
}

/// The stage once the fixed header is read: the first announced optional
/// field, or completion.
pub open spec fn first_optional(flags: u8) -> HeaderStage {
    if flags & FLAG_EXTRA != 0 {
        HeaderStage::ExtraLen0
    } else {
        after_extra(flags)
    }
}

/// The parser's whole behaviour: what one byte does to it.  `None` means
/// the byte cannot open a gzip stream — the header is invalid.
pub open spec fn header_step(p: GzipHeaderParser, b: u8) -> Option<GzipHeaderParser> {
    match p.stage {
        HeaderStage::Magic0 => if b == GZIP_MAGIC0 {
            Some(GzipHeaderParser { stage: HeaderStage::Magic1, ..p })
        } else {
            None
        },
        HeaderStage::Magic1 => if b == GZIP_MAGIC1 {
            Some(GzipHeaderParser { stage: HeaderStage::Method, ..p })
        } else {
            None
        },
        HeaderStage::Method => if b == 8 {
            Some(GzipHeaderParser { stage: HeaderStage::Flags, ..p })
        } else {
            None
        },
        HeaderStage::Flags => Some(
            GzipHeaderParser { stage: HeaderStage::Meta { left: 6 }, flags: b },
        ),
        HeaderStage::Meta { left } => if left > 1 {
            Some(GzipHeaderParser { stage: HeaderStage::Meta { left: (left - 1) as u8 }, ..p })
        } else {
            Some(GzipHeaderParser { stage: first_optional(p.flags), ..p })
        },
        HeaderStage::ExtraLen0 => Some(
            GzipHeaderParser { stage: HeaderStage::ExtraLen1 { lo: b }, ..p },
        ),
        HeaderStage::ExtraLen1 { lo } => {
            let len = lo as int + 256 * (b as int);
            if len == 0 {
                Some(GzipHeaderParser { stage: after_extra(p.flags), ..p })
            } else {
                Some(GzipHeaderParser { stage: HeaderStage::Extra { rest: len as u16 }, ..p })
            }
        },
        HeaderStage::Extra { rest } => if rest > 1 {
            Some(GzipHeaderParser { stage: HeaderStage::Extra { rest: (rest - 1) as u16 }, ..p })
        } else {
            Some(GzipHeaderParser { stage: after_extra(p.flags), ..p })
        },
        HeaderStage::Name => if b == 0 {
            Some(GzipHeaderParser { stage: after_name(p.flags), ..p })
        } else {
            Some(p)
        },
        HeaderStage::Comment => if b == 0 {
            Some(GzipHeaderParser { stage: after_comment(p.flags), ..p })
        } else {
            Some(p)
        },
        HeaderStage::HeaderCrc { left } => if left > 1 {
            Some(GzipHeaderParser { stage: HeaderStage::HeaderCrc { left: (left - 1) as u8 }, ..p })
        } else {
            Some(GzipHeaderParser { stage: HeaderStage::Complete, ..p })
        },
        HeaderStage::Complete => Some(p),
    }
}

impl GzipHeaderParser {
    /// A parser that has seen nothing and expects the first magic byte.
    pub fn new() -> (r: GzipHeaderParser)
        ensures
            r.stage is Magic0,
            r.flags == 0,
    {
        GzipHeaderParser { stage: HeaderStage::Magic0, flags: 0 }
    }

    /// Whether the whole header has been read.
    pub fn is_complete(&self) -> (r: bool)
        ensures
            r == (self.stage is Complete),
    {
        matches!(self.stage, HeaderStage::Complete)
    }

    /// Consume one byte.  Returns false, leaving the parser as it was, when
    /// the byte proves the header invalid.
    pub fn feed(&mut self, b: u8) -> (r: bool)
        ensures
            (header_step(*old(self), b) matches Some(p) ==> r == true && *final(self) == p),
            (header_step(*old(self), b) is None ==> r == false && *final(self) == *old(self)),
    {
        match self.stage {
            HeaderStage::Magic0 => {
                if b == GZIP_MAGIC0 {
                    self.stage = HeaderStage::Magic1;
                    true
                } else {
                    false
                }
            },
            HeaderStage::Magic1 => {
                if b == GZIP_MAGIC1 {
                    self.stage = HeaderStage::Method;
                    true
                } else {
                    false
                }
            },
            HeaderStage::Method => {
                if b == 8 {
                    self.stage = HeaderStage::Flags;
                    true
                } else {
                    false
                }
            },
            HeaderStage::Flags => {
                self.flags = b;
                self.stage = HeaderStage::Meta { left: 6 };
                true
            },
            HeaderStage::Meta { left } => {
                if left > 1 {
                    self.stage = HeaderStage::Meta { left: left - 1 };
                } else {
                    self.stage = self.first_optional_stage();
                }
                true
            },
            HeaderStage::ExtraLen0 => {
                self.stage = HeaderStage::ExtraLen1 { lo: b };
                true
            },
            HeaderStage::ExtraLen1 { lo } => {
                let len: u16 = (lo as u16) + 256u16 * (b as u16);
                if len == 0 {
                    self.stage = self.after_extra_stage();
                } else {
                    self.stage = HeaderStage::Extra { rest: len };
                }
                true
            },
            HeaderStage::Extra { rest } => {
                if rest > 1 {
                    self.stage = HeaderStage::Extra { rest: rest - 1 };
                } else {
                    self.stage = self.after_extra_stage();
                }
                true
            },
            HeaderStage::Name => {
                if b == 0 {
                    self.stage = self.after_name_stage();
                }
                true
            },
            HeaderStage::Comment => {
                if b == 0 {
                    self.stage = self.after_comment_stage();
                }
                true
            },
            HeaderStage::HeaderCrc { left } => {
                if left > 1 {
                    self.stage = HeaderStage::HeaderCrc { left: left - 1 };
                } else {
                    self.stage = HeaderStage::Complete;
                }
                true
            },
            HeaderStage::Complete => true,
        }
    }

    fn first_optional_stage(&self) -> (r: HeaderStage)
        ensures
            r == first_optional(self.flags),
    {
        if self.flags & FLAG_EXTRA != 0 {
            HeaderStage::ExtraLen0
        } else {
            self.after_extra_stage()
        }
    }

    fn after_extra_stage(&self) -> (r: HeaderStage)
        ensures
            r == after_extra(self.flags),
    {
        if self.flags & FLAG_NAME != 0 {
            HeaderStage::Name
        } else {
            self.after_name_stage()
        }
    }

    fn after_name_stage(&self) -> (r: HeaderStage)
        ensures
            r == after_name(self.flags),
    {
        if self.flags & FLAG_COMMENT != 0 {
            HeaderStage::Comment
        } else {
            self.after_comment_stage()
        }
    }

    fn after_comment_stage(&self) -> (r: HeaderStage)
        ensures
            r == after_comment(self.flags),
    {
        if self.flags & FLAG_HEADER_CRC != 0 {
            HeaderStage::HeaderCrc { left: 2 }
        } else {
            HeaderStage::Complete
        }
    }
}

} // verus!
