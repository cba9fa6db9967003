//! Laws about looking primitives up
use vstd::prelude::*;

use super::lookup::{first_match, has_ascii, has_glyph, has_name, lemma_first_match_exists, lemma_first_match_sound};
use super::{AsciiToken, Primitive};
use crate::sys::SysOp;
use vstd::utf8::is_ascii_chars;

verus! {

/// The primitive that a text name belongs to
pub(crate) open spec fn primitive_named(s: Seq<char>) -> Option<Primitive> {
    if s.len() == 2 {
        if s[0] == 'p' {
            if s[1] == 'i' {
                Some(Primitive::Pi)
            } else {
                None
            }
        } else if s[0] == 'o' {
            if s[1] == 'n' {
                Some(Primitive::On)
            } else if s[1] == 'r' {
                Some(Primitive::Or)
            } else {
                None
            }
        } else if s[0] == 'b' {
            if s[1] == 'y' {
                Some(Primitive::By)
            } else {
                None
            }
        } else if s[0] == 'd' {
            if s[1] == 'o' {
                Some(Primitive::Do)
            } else {
                None
            }
        } else if s[0] == 'u' {
            if s[1] == 'n' {
                Some(Primitive::Un)
            } else {
                None
            }
        } else if s[0] == '&' {
            if s[1] == 'w' {
                Some(Primitive::Sys(SysOp::Write))
            } else {
                None
            }
        } else {
            None
        }
    } else if s.len() == 3 {
        if s[0] == 'e' {
            if s[1] == 't' {
                if s[2] == 'a' {
                    Some(Primitive::Eta)
                } else {
                    None
                }
            } else {
                None
            }
        } else if s[0] == 't' {
            if s[1] == 'a' {
                if s[2] == 'u' {
                    Some(Primitive::Tau)
                } else if s[2] == 'g' {
                    Some(Primitive::Tag)
                } else {
                    None
                }
            } else if s[1] == 'r' {
                if s[2] == 'y' {
                    Some(Primitive::Try)
                } else {
                    None
                }
            } else {
                None
            }
        } else if s[0] == 'p' {
            if s[1] == 'o' {
                if s[2] == 'p' {
                    Some(Primitive::Pop)
                } else {
                    None
                }
            } else {
                None
            }
        } else if s[0] == 'g' {
            if s[1] == 'a' {
                if s[2] == 'p' {
                    Some(Primitive::Gap)
                } else {
                    None
                }
            } else if s[1] == 'e' {
                if s[2] == 't' {
                    Some(Primitive::Get)
                } else if s[2] == 'n' {
                    Some(Primitive::Gen)
                } else {
                    None
                }
            } else {
                None
            }
        } else if s[0] == 'd' {
            if s[1] == 'i' {
                if s[2] == 'p' {
                    Some(Primitive::Dip)
                } else {
                    None
                }
            } else {
                None
            }
        } else if s[0] == 'o' {
            if s[1] == 'f' {
                if s[2] == 'f' {
                    Some(Primitive::Off)
                } else {
                    None
                }
            } else {
                None
            }
        } else if s[0] == 'n' {
            if s[1] == 'o' {
                if s[2] == 't' {
                    Some(Primitive::Not)
                } else if s[2] == 'w' {
                    Some(Primitive::Now)
                } else {
                    None
                }
            } else {
                None
            }
        } else if s[0] == 'a' {
            if s[1] == 'd' {
                if s[2] == 'd' {
                    Some(Primitive::Add)
                } else {
                    None
                }
            } else {
                None
            }
        } else if s[0] == 'f' {
            if s[1] == 'i' {
                if s[2] == 'x' {
                    Some(Primitive::Fix)
                } else {
                    None
                }
            } else {
                None
            }
        } else if s[0] == 'b' {
            if s[1] == 'o' {
                if s[2] == 'x' {
                    Some(Primitive::Box)
                } else {
                    None
                }
            } else {
                None
            }
        } else if s[0] == 'm' {
            if s[1] == 'a' {
                if s[2] == 'p' {
                    Some(Primitive::Mapping)
                } else {
                    None
                }
            } else {
                None
            }
        } else if s[0] == 'h' {
            if s[1] == 'a' {
                if s[2] == 's' {
                    Some(Primitive::Has)
                } else {
                    None
                }
            } else {
                None
            }
        } else if s[0] == '&' {
            if s[1] == 's' {
                if s[2] == 'l' {
                    Some(Primitive::Sys(SysOp::Sleep))
                } else {
                    None
                }
            } else if s[1] == 'r' {
                if s[2] == 's' {
                    Some(Primitive::Sys(SysOp::ReadStr))
                } else if s[2] == 'b' {
                    Some(Primitive::Sys(SysOp::ReadBytes))
                } else if s[2] == 'u' {
                    Some(Primitive::Sys(SysOp::ReadUntil))
                } else if s[2] == 'l' {
                    Some(Primitive::Sys(SysOp::ReadLines))
                } else {
                    None
                }
            } else if s[1] == 'c' {
                if s[2] == 'l' {
                    Some(Primitive::Sys(SysOp::Close))
                } else {
                    None
                }
            } else if s[1] == 'f' {
                if s[2] == 'o' {
                    Some(Primitive::Sys(SysOp::FOpen))
                } else if s[2] == 'c' {
                    Some(Primitive::Sys(SysOp::FCreate))
                } else if s[2] == 'e' {
                    Some(Primitive::Sys(SysOp::FExists))
                } else {
                    None
                }
            } else {
                None
            }
        } else {
            None
        }
    } else if s.len() == 4 {
        if s[0] == 'f' {
            if s[1] == 'l' {
                if s[2] == 'i' {
                    if s[3] == 'p' {
                        Some(Primitive::Flip)
                    } else {
                        None
                    }
                } else {
                    None
                }
            } else if s[1] == 'o' {
                if s[2] == 'r' {
                    if s[3] == 'k' {
                        Some(Primitive::Fork)
                    } else {
                        None
                    }
                } else if s[2] == 'l' {
                    if s[3] == 'd' {
                        Some(Primitive::Fold)
                    } else {
                        None
                    }
                } else {
                    None
                }
            } else if s[1] == 'a' {
                if s[2] == 'l' {
                    if s[3] == 'l' {
                        Some(Primitive::Fall)
                    } else {
                        None
                    }
                } else {
                    None
                }
            } else if s[1] == 'i' {
                if s[2] == 'n' {
                    if s[3] == 'd' {
                        Some(Primitive::Find)
                    } else {
                        None
                    }
                } else if s[2] == 'l' {
                    if s[3] == 'l' {
                        Some(Primitive::Fill)
                    } else {
                        None
                    }
                } else {
                    None
                }
            } else {
                None
            }
        } else if s[0] == 'o' {
            if s[1] == 'v' {
                if s[2] == 'e' {
                    if s[3] == 'r' {
                        Some(Primitive::Over)
                    } else {
                        None
                    }
                } else {
                    None
                }
            } else {
                None
            }
        } else if s[0] == 'b' {
            if s[1] == 'o' {
                if s[2] == 't' {
                    if s[3] == 'h' {
                        Some(Primitive::Both)
                    } else {
                        None
                    }
                } else {
                    None
                }
            } else if s[1] == 'i' {
                if s[2] == 't' {
                    if s[3] == 's' {
                        Some(Primitive::Bits)
                    } else {
                        None
                    }
                } else {
                    None
                }
            } else if s[1] == 'a' {
                if s[2] == 's' {
                    if s[3] == 'e' {
                        Some(Primitive::Base)
                    } else {
                        None
                    }
                } else {
                    None
                }
            } else {
                None
            }
        } else if s[0] == 'w' {
            if s[1] == 'i' {
                if s[2] == 't' {
                    if s[3] == 'h' {
                        Some(Primitive::With)
                    } else {
                        None
                    }
                } else {
                    None
                }
            } else if s[1] == 'a' {
                if s[2] == 'i' {
                    if s[3] == 't' {
                        Some(Primitive::Wait)
                    } else {
                        None
                    }
                } else {
                    None
                }
            } else {
                None
            }
        } else if s[0] == 's' {
            if s[1] == 'e' {
                if s[2] == 'l' {
                    if s[3] == 'f' {
                        Some(Primitive::Slf)
                    } else {
                        None
                    }
                } else if s[2] == 'n' {
                    if s[3] == 'd' {
                        Some(Primitive::Send)
                    } else {
                        None
                    }
                } else {
                    None
                }
            } else if s[1] == 'i' {
                if s[2] == 'g' {
                    if s[3] == 'n' {
                        Some(Primitive::Sign)
                    } else {
                        None
                    }
                } else if s[2] == 'n' {
                    if s[3] == 'e' {
                        Some(Primitive::Sin)
                    } else {
                        None
                    }
                } else {
                    None
                }
            } else if s[1] == 'q' {
                if s[2] == 'r' {
                    if s[3] == 't' {
                        Some(Primitive::Sqrt)
                    } else {
                        None
                    }
                } else {
                    None
                }
            } else if s[1] == 'o' {
                if s[2] == 'r' {
                    if s[3] == 't' {
                        Some(Primitive::Sort)
                    } else {
                        None
                    }
                } else {
                    None
                }
            } else if s[1] == 'c' {
                if s[2] == 'a' {
                    if s[3] == 'n' {
                        Some(Primitive::Scan)
                    } else {
                        None
                    }
                } else {
                    None
                }
            } else {
                None
            }
        } else if s[0] == 'l' {
            if s[1] == 'a' {
                if s[2] == 's' {
                    if s[3] == 't' {
                        Some(Primitive::Last)
                    } else {
                        None
                    }
                } else {
                    None
                }
            } else {
                None
            }
        } else if s[0] == 'r' {
            if s[1] == 'i' {
                if s[2] == 's' {
                    if s[3] == 'e' {
                        Some(Primitive::Rise)
                    } else {
                        None
                    }
                } else {
                    None
                }
            } else if s[1] == 'o' {
                if s[2] == 'w' {
                    if s[3] == 's' {
                        Some(Primitive::Rows)
                    } else {
                        None
                    }
                } else {
                    None
                }
            } else if s[1] == 'e' {
                if s[2] == 'c' {
                    if s[3] == 'v' {
                        Some(Primitive::Recv)
                    } else {
                        None
                    }
                } else if s[2] == 'p' {
                    if s[3] == 'r' {
                        Some(Primitive::Repr)
                    } else {
                        None
                    }
                } else {
                    None
                }
            } else {
                None
            }
        } else if s[0] == 'j' {
            if s[1] == 'o' {
                if s[2] == 'i' {
                    if s[3] == 'n' {
                        Some(Primitive::Join)
                    } else {
                        None
                    }
                } else {
                    None
                }
            } else {
                None
            }
        } else if s[0] == 'p' {
            if s[1] == 'i' {
                if s[2] == 'c' {
                    if s[3] == 'k' {
                        Some(Primitive::Pick)
                    } else {
                        None
                    }
                } else {
                    None
                }
            } else if s[1] == 'a' {
                if s[2] == 't' {
                    if s[3] == 'h' {
                        Some(Primitive::Path)
                    } else {
                        None
                    }
                } else {
                    None
                }
            } else if s[1] == 'o' {
                if s[2] == 'o' {
                    if s[3] == 'l' {
                        Some(Primitive::Pool)
                    } else {
                        None
                    }
                } else {
                    None
                }
            } else {
                None
            }
        } else if s[0] == 't' {
            if s[1] == 'a' {
                if s[2] == 'k' {
                    if s[3] == 'e' {
                        Some(Primitive::Take)
                    } else {
                        None
                    }
                } else {
                    None
                }
            } else if s[1] == 'y' {
                if s[2] == 'p' {
                    if s[3] == 'e' {
                        Some(Primitive::Type)
                    } else {
                        None
                    }
                } else {
                    None
                }
            } else {
                None
            }
        } else if s[0] == 'd' {
            if s[1] == 'r' {
                if s[2] == 'o' {
                    if s[3] == 'p' {
                        Some(Primitive::Drop)
                    } else {
                        None
                    }
                } else {
                    None
                }
            } else if s[1] == 'u' {
                if s[2] == 'm' {
                    if s[3] == 'p' {
                        Some(Primitive::Dump)
                    } else {
                        None
                    }
                } else {
                    None
                }
            } else {
                None
            }
        } else if s[0] == 'k' {
            if s[1] == 'e' {
                if s[2] == 'e' {
                    if s[3] == 'p' {
                        Some(Primitive::Keep)
                    } else {
                        None
                    }
                } else {
                    None
                }
            } else {
                None
            }
        } else if s[0] == 'm' {
            if s[1] == 'a' {
                if s[2] == 's' {
                    if s[3] == 'k' {
                        Some(Primitive::Mask)
                    } else {
                        None
                    }
                } else {
                    None
                }
            } else if s[1] == 'e' {
                if s[2] == 'm' {
                    if s[3] == 'o' {
                        Some(Primitive::Memo)
                    } else {
                        None
                    }
                } else {
                    None
                }
            } else {
                None
            }
        } else if s[0] == 'e' {
            if s[1] == 'a' {
                if s[2] == 'c' {
                    if s[3] == 'h' {
                        Some(Primitive::Each)
                    } else {
                        None
                    }
                } else {
                    None
                }
            } else {
                None
            }
        } else if s[0] == 'a' {
            if s[1] == 'n' {
                if s[2] == 't' {
                    if s[3] == 'i' {
                        Some(Primitive::Anti)
                    } else {
                        None
                    }
                } else {
                    None
                }
            } else {
                None
            }
        } else if s[0] == 'c' {
            if s[1] == 'a' {
                if s[2] == 's' {
                    if s[3] == 'e' {
                        Some(Primitive::Case)
                    } else {
                        None
                    }
                } else {
                    None
                }
            } else {
                None
            }
        } else if s[0] == 'u' {
            if s[1] == 't' {
                if s[2] == 'f' {
                    if s[3] == '₈' {
                        Some(Primitive::Utf8)
                    } else {
                        None
                    }
                } else {
                    None
                }
            } else {
                None
            }
        } else if s[0] == '&' {
            if s[1] == 'f' {
                if s[2] == 'm' {
                    if s[3] == 'd' {
                        Some(Primitive::Sys(SysOp::FMakeDir))
                    } else {
                        None
                    }
                } else if s[2] == 'd' {
                    if s[3] == 'e' {
                        Some(Primitive::Sys(SysOp::FDelete))
                    } else {
                        None
                    }
                } else if s[2] == 't' {
                    if s[3] == 'r' {
                        Some(Primitive::Sys(SysOp::FTrash))
                    } else {
                        None
                    }
                } else if s[2] == 'l' {
                    if s[3] == 'd' {
                        Some(Primitive::Sys(SysOp::FListDir))
                    } else {
                        None
                    }
                } else if s[2] == 'i' {
                    if s[3] == 'f' {
                        Some(Primitive::Sys(SysOp::FIsFile))
                    } else {
                        None
                    }
                } else if s[2] == 'w' {
                    if s[3] == 'a' {
                        Some(Primitive::Sys(SysOp::FWriteAll))
                    } else {
                        None
                    }
                } else {
                    None
                }
            } else {
                None
            }
        } else {
            None
        }
    } else if s.len() == 5 {
        if s[0] == 'a' {
            if s[1] == 'b' {
                if s[2] == 'o' {
                    if s[3] == 'v' {
                        if s[4] == 'e' {
                            Some(Primitive::Above)
                        } else {
                            None
                        }
                    } else {
                        None
                    }
                } else {
                    None
                }
            } else if s[1] == 's' {
                if s[2] == 't' {
                    if s[3] == 'a' {
                        if s[4] == 'r' {
                            Some(Primitive::Astar)
                        } else {
                            None
                        }
                    } else {
                        None
                    }
                } else {
                    None
                }
            } else {
                None
            }
        } else if s[0] == 'b' {
            if s[1] == 'e' {
                if s[2] == 'l' {
                    if s[3] == 'o' {
                        if s[4] == 'w' {
                            Some(Primitive::Below)
                        } else {
                            None
                        }
                    } else {
                        None
                    }
                } else {
                    None
                }
            } else {
                None
            }
        } else if s[0] == 'r' {
            if s[1] == 'e' {
                if s[2] == 'a' {
                    if s[3] == 'c' {
                        if s[4] == 'h' {
                            Some(Primitive::Reach)
                        } else {
                            None
                        }
                    } else {
                        None
                    }
                } else {
                    None
                }
            } else if s[1] == 'o' {
                if s[2] == 'u' {
                    if s[3] == 'n' {
                        if s[4] == 'd' {
                            Some(Primitive::Round)
                        } else {
                            None
                        }
                    } else {
                        None
                    }
                } else {
                    None
                }
            } else if s[1] == 'a' {
                if s[2] == 'n' {
                    if s[3] == 'g' {
                        if s[4] == 'e' {
                            Some(Primitive::Range)
                        } else {
                            None
                        }
                    } else {
                        None
                    }
                } else {
                    None
                }
            } else {
                None
            }
        } else if s[0] == 'f' {
            if s[1] == 'l' {
                if s[2] == 'o' {
                    if s[3] == 'o' {
                        if s[4] == 'r' {
                            Some(Primitive::Floor)
                        } else {
                            None
                        }
                    } else {
                        None
                    }
                } else {
                    None
                }
            } else if s[1] == 'i' {
                if s[2] == 'r' {
                    if s[3] == 's' {
                        if s[4] == 't' {
                            Some(Primitive::First)
                        } else {
                            None
                        }
                    } else {
                        None
                    }
                } else {
                    None
                }
            } else {
                None
            }
        } else if s[0] == 'p' {
            if s[1] == 'o' {
                if s[2] == 'w' {
                    if s[3] == 'e' {
                        if s[4] == 'r' {
                            Some(Primitive::Pow)
                        } else {
                            None
                        }
                    } else {
                        None
                    }
                } else {
                    None
                }
            } else if s[1] == 'a' {
                if s[2] == 'r' {
                    if s[3] == 's' {
                        if s[4] == 'e' {
                            Some(Primitive::Parse)
                        } else {
                            None
                        }
                    } else {
                        None
                    }
                } else {
                    None
                }
            } else {
                None
            }
        } else if s[0] == 's' {
            if s[1] == 'h' {
                if s[2] == 'a' {
                    if s[3] == 'p' {
                        if s[4] == 'e' {
                            Some(Primitive::Shape)
                        } else {
                            None
                        }
                    } else {
                        None
                    }
                } else {
                    None
                }
            } else if s[1] == 't' {
                if s[2] == 'a' {
                    if s[3] == 'c' {
                        if s[4] == 'k' {
                            Some(Primitive::Stack)
                        } else {
                            None
                        }
                    } else {
                        None
                    }
                } else {
                    None
                }
            } else if s[1] == 'p' {
                if s[2] == 'a' {
                    if s[3] == 'w' {
                        if s[4] == 'n' {
                            Some(Primitive::Spawn)
                        } else {
                            None
                        }
                    } else {
                        None
                    }
                } else {
                    None
                }
            } else {
                None
            }
        } else if s[0] == 'w' {
            if s[1] == 'h' {
                if s[2] == 'e' {
                    if s[3] == 'r' {
                        if s[4] == 'e' {
                            Some(Primitive::Where)
                        } else {
                            None
                        }
                    } else {
                        None
                    }
                } else {
                    None
                }
            } else {
                None
            }
        } else if s[0] == 'm' {
            if s[1] == 'a' {
                if s[2] == 't' {
                    if s[3] == 'c' {
                        if s[4] == 'h' {
                            Some(Primitive::Match)
                        } else {
                            None
                        }
                    } else {
                        None
                    }
                } else {
                    None
                }
            } else {
                None
            }
        } else if s[0] == 't' {
            if s[1] == 'a' {
                if s[2] == 'b' {
                    if s[3] == 'l' {
                        if s[4] == 'e' {
                            Some(Primitive::Table)
                        } else {
                            None
                        }
                    } else {
                        None
                    }
                } else {
                    None
                }
            } else if s[1] == 'r' {
                if s[2] == 'a' {
                    if s[3] == 'c' {
                        if s[4] == 'e' {
                            Some(Primitive::Trace)
                        } else {
                            None
                        }
                    } else {
                        None
                    }
                } else {
                    None
                }
            } else {
                None
            }
        } else if s[0] == 'g' {
            if s[1] == 'r' {
                if s[2] == 'o' {
                    if s[3] == 'u' {
                        if s[4] == 'p' {
                            Some(Primitive::Group)
                        } else {
                            None
                        }
                    } else {
                        None
                    }
                } else {
                    None
                }
            } else {
                None
            }
        } else if s[0] == 'u' {
            if s[1] == 'n' {
                if s[2] == 'd' {
                    if s[3] == 'e' {
                        if s[4] == 'r' {
                            Some(Primitive::Under)
                        } else {
                            None
                        }
                    } else {
                        None
                    }
                } else {
                    None
                }
            } else {
                None
            }
        } else if s[0] == 'q' {
            if s[1] == 'u' {
                if s[2] == 'o' {
                    if s[3] == 't' {
                        if s[4] == 'e' {
                            Some(Primitive::Quote)
                        } else {
                            None
                        }
                    } else {
                        None
                    }
                } else {
                    None
                }
            } else {
                None
            }
        } else if s[0] == '&' {
            if s[1] == 'e' {
                if s[2] == 'x' {
                    if s[3] == 'i' {
                        if s[4] == 't' {
                            Some(Primitive::Sys(SysOp::Exit))
                        } else {
                            None
                        }
                    } else {
                        None
                    }
                } else {
                    None
                }
            } else if s[1] == 'f' {
                if s[2] == 'r' {
                    if s[3] == 'a' {
                        if s[4] == 's' {
                            Some(Primitive::Sys(SysOp::FReadAllStr))
                        } else if s[4] == 'b' {
                            Some(Primitive::Sys(SysOp::FReadAllBytes))
                        } else {
                            None
                        }
                    } else {
                        None
                    }
                } else {
                    None
                }
            } else {
                None
            }
        } else {
            None
        }
    } else if s.len() == 6 {
        if s[0] == 'a' {
            if s[1] == 'r' {
                if s[2] == 'o' {
                    if s[3] == 'u' {
                        if s[4] == 'n' {
                            if s[5] == 'd' {
                                Some(Primitive::Around)
                            } else {
                                None
                            }
                        } else {
                            None
                        }
                    } else {
                        None
                    }
                } else {
                    None
                }
            } else if s[1] == 's' {
                if s[2] == 's' {
                    if s[3] == 'e' {
                        if s[4] == 'r' {
                            if s[5] == 't' {
                                Some(Primitive::Assert)
                            } else {
                                None
                            }
                        } else {
                            None
                        }
                    } else {
                        None
                    }
                } else {
                    None
                }
            } else {
                None
            }
        } else if s[0] == 'n' {
            if s[1] == 'e' {
                if s[2] == 'g' {
                    if s[3] == 'a' {
                        if s[4] == 't' {
                            if s[5] == 'e' {
                                Some(Primitive::Neg)
                            } else {
                                None
                            }
                        } else {
                            None
                        }
                    } else {
                        None
                    }
                } else {
                    None
                }
            } else {
                None
            }
        } else if s[0] == 'e' {
            if s[1] == 'q' {
                if s[2] == 'u' {
                    if s[3] == 'a' {
                        if s[4] == 'l' {
                            if s[5] == 's' {
                                Some(Primitive::Eq)
                            } else {
                                None
                            }
                        } else {
                            None
                        }
                    } else {
                        None
                    }
                } else {
                    None
                }
            } else {
                None
            }
        } else if s[0] == 'd' {
            if s[1] == 'i' {
                if s[2] == 'v' {
                    if s[3] == 'i' {
                        if s[4] == 'd' {
                            if s[5] == 'e' {
                                Some(Primitive::Div)
                            } else {
                                None
                            }
                        } else {
                            None
                        }
                    } else {
                        None
                    }
                } else {
                    None
                }
            } else {
                None
            }
        } else if s[0] == 'l' {
            if s[1] == 'e' {
                if s[2] == 'n' {
                    if s[3] == 'g' {
                        if s[4] == 't' {
                            if s[5] == 'h' {
                                Some(Primitive::Len)
                            } else {
                                None
                            }
                        } else {
                            None
                        }
                    } else {
                        None
                    }
                } else {
                    None
                }
            } else {
                None
            }
        } else if s[0] == 'u' {
            if s[1] == 'n' {
                if s[2] == 'i' {
                    if s[3] == 'q' {
                        if s[4] == 'u' {
                            if s[5] == 'e' {
                                Some(Primitive::Unique)
                            } else {
                                None
                            }
                        } else {
                            None
                        }
                    } else {
                        None
                    }
                } else {
                    None
                }
            } else {
                None
            }
        } else if s[0] == 'c' {
            if s[1] == 'o' {
                if s[2] == 'u' {
                    if s[3] == 'p' {
                        if s[4] == 'l' {
                            if s[5] == 'e' {
                                Some(Primitive::Couple)
                            } else {
                                None
                            }
                        } else {
                            None
                        }
                    } else {
                        None
                    }
                } else {
                    None
                }
            } else {
                None
            }
        } else if s[0] == 's' {
            if s[1] == 'e' {
                if s[2] == 'l' {
                    if s[3] == 'e' {
                        if s[4] == 'c' {
                            if s[5] == 't' {
                                Some(Primitive::Select)
                            } else {
                                None
                            }
                        } else {
                            None
                        }
                    } else {
                        None
                    }
                } else {
                    None
                }
            } else if s[1] == 'w' {
                if s[2] == 'i' {
                    if s[3] == 't' {
                        if s[4] == 'c' {
                            if s[5] == 'h' {
                                Some(Primitive::Switch)
                            } else {
                                None
                            }
                        } else {
                            None
                        }
                    } else {
                        None
                    }
                } else {
                    None
                }
            } else {
                None
            }
        } else if s[0] == 'r' {
            if s[1] == 'e' {
                if s[2] == 'r' {
                    if s[3] == 'a' {
                        if s[4] == 'n' {
                            if s[5] == 'k' {
                                Some(Primitive::Rerank)
                            } else {
                                None
                            }
                        } else {
                            None
                        }
                    } else {
                        None
                    }
                } else if s[2] == 'p' {
                    if s[3] == 'e' {
                        if s[4] == 'a' {
                            if s[5] == 't' {
                                Some(Primitive::Repeat)
                            } else {
                                None
                            }
                        } else {
                            None
                        }
                    } else {
                        None
                    }
                } else if s[2] == 'd' {
                    if s[3] == 'u' {
                        if s[4] == 'c' {
                            if s[5] == 'e' {
                                Some(Primitive::Reduce)
                            } else {
                                None
                            }
                        } else {
                            None
                        }
                    } else {
                        None
                    }
                } else if s[2] == 'm' {
                    if s[3] == 'o' {
                        if s[4] == 'v' {
                            if s[5] == 'e' {
                                Some(Primitive::Remove)
                            } else {
                                None
                            }
                        } else {
                            None
                        }
                    } else {
                        None
                    }
                } else {
                    None
                }
            } else if s[1] == 'o' {
                if s[2] == 't' {
                    if s[3] == 'a' {
                        if s[4] == 't' {
                            if s[5] == 'e' {
                                Some(Primitive::Rotate)
                            } else {
                                None
                            }
                        } else {
                            None
                        }
                    } else {
                        None
                    }
                } else {
                    None
                }
            } else if s[1] == 'a' {
                if s[2] == 'n' {
                    if s[3] == 'd' {
                        if s[4] == 'o' {
                            if s[5] == 'm' {
                                Some(Primitive::Rand)
                            } else {
                                None
                            }
                        } else {
                            None
                        }
                    } else {
                        None
                    }
                } else {
                    None
                }
            } else {
                None
            }
        } else if s[0] == 'o' {
            if s[1] == 'r' {
                if s[2] == 'i' {
                    if s[3] == 'e' {
                        if s[4] == 'n' {
                            if s[5] == 't' {
                                Some(Primitive::Orient)
                            } else {
                                None
                            }
                        } else {
                            None
                        }
                    } else {
                        None
                    }
                } else {
                    None
                }
            } else {
                None
            }
        } else if s[0] == 't' {
            if s[1] == 'u' {
                if s[2] == 'p' {
                    if s[3] == 'l' {
                        if s[4] == 'e' {
                            if s[5] == 's' {
                                Some(Primitive::Tuples)
                            } else {
                                None
                            }
                        } else {
                            None
                        }
                    } else {
                        None
                    }
                } else {
                    None
                }
            } else {
                None
            }
        } else if s[0] == 'i' {
            if s[1] == 'n' {
                if s[2] == 's' {
                    if s[3] == 'e' {
                        if s[4] == 'r' {
                            if s[5] == 't' {
                                Some(Primitive::Insert)
                            } else {
                                None
                            }
                        } else {
                            None
                        }
                    } else {
                        None
                    }
                } else {
                    None
                }
            } else {
                None
            }
        } else {
            None
        }
    } else if s.len() == 7 {
        if s[0] == 'b' {
            if s[1] == 'r' {
                if s[2] == 'a' {
                    if s[3] == 'c' {
                        if s[4] == 'k' {
                            if s[5] == 'e' {
                                if s[6] == 't' {
                                    Some(Primitive::Bracket)
                                } else {
                                    None
                                }
                            } else {
                                None
                            }
                        } else {
                            None
                        }
                    } else {
                        None
                    }
                } else {
                    None
                }
            } else {
                None
            }
        } else if s[0] == 'c' {
            if s[1] == 'e' {
                if s[2] == 'i' {
                    if s[3] == 'l' {
                        if s[4] == 'i' {
                            if s[5] == 'n' {
                                if s[6] == 'g' {
                                    Some(Primitive::Ceil)
                                } else {
                                    None
                                }
                            } else {
                                None
                            }
                        } else {
                            None
                        }
                    } else {
                        None
                    }
                } else {
                    None
                }
            } else if s[1] == 'o' {
                if s[2] == 'n' {
                    if s[3] == 't' {
                        if s[4] == 'e' {
                            if s[5] == 'n' {
                                if s[6] == 't' {
                                    Some(Primitive::Content)
                                } else {
                                    None
                                }
                            } else {
                                None
                            }
                        } else {
                            None
                        }
                    } else {
                        None
                    }
                } else {
                    None
                }
            } else {
                None
            }
        } else if s[0] == 'm' {
            if s[1] == 'o' {
                if s[2] == 'd' {
                    if s[3] == 'u' {
                        if s[4] == 'l' {
                            if s[5] == 'u' {
                                if s[6] == 's' {
                                    Some(Primitive::Modulus)
                                } else {
                                    None
                                }
                            } else {
                                None
                            }
                        } else {
                            None
                        }
                    } else {
                        None
                    }
                } else {
                    None
                }
            } else if s[1] == 'i' {
                if s[2] == 'n' {
                    if s[3] == 'i' {
                        if s[4] == 'm' {
                            if s[5] == 'u' {
                                if s[6] == 'm' {
                                    Some(Primitive::Min)
                                } else {
                                    None
                                }
                            } else {
                                None
                            }
                        } else {
                            None
                        }
                    } else {
                        None
                    }
                } else {
                    None
                }
            } else if s[1] == 'a' {
                if s[2] == 'x' {
                    if s[3] == 'i' {
                        if s[4] == 'm' {
                            if s[5] == 'u' {
                                if s[6] == 'm' {
                                    Some(Primitive::Max)
                                } else {
                                    None
                                }
                            } else {
                                None
                            }
                        } else {
                            None
                        }
                    } else {
                        None
                    }
                } else {
                    None
                }
            } else {
                None
            }
        } else if s[0] == 'r' {
            if s[1] == 'e' {
                if s[2] == 'v' {
                    if s[3] == 'e' {
                        if s[4] == 'r' {
                            if s[5] == 's' {
                                if s[6] == 'e' {
                                    Some(Primitive::Reverse)
                                } else {
                                    None
                                }
                            } else {
                                None
                            }
                        } else {
                            None
                        }
                    } else {
                        None
                    }
                } else if s[2] == 's' {
                    if s[3] == 'h' {
                        if s[4] == 'a' {
                            if s[5] == 'p' {
                                if s[6] == 'e' {
                                    Some(Primitive::Reshape)
                                } else {
                                    None
                                }
                            } else {
                                None
                            }
                        } else {
                            None
                        }
                    } else {
                        None
                    }
                } else {
                    None
                }
            } else {
                None
            }
        } else if s[0] == 'd' {
            if s[1] == 'e' {
                if s[2] == 's' {
                    if s[3] == 'h' {
                        if s[4] == 'a' {
                            if s[5] == 'p' {
                                if s[6] == 'e' {
                                    Some(Primitive::Deshape)
                                } else {
                                    None
                                }
                            } else {
                                None
                            }
                        } else {
                            None
                        }
                    } else {
                        None
                    }
                } else {
                    None
                }
            } else {
                None
            }
        } else if s[0] == 'w' {
            if s[1] == 'i' {
                if s[2] == 'n' {
                    if s[3] == 'd' {
                        if s[4] == 'o' {
                            if s[5] == 'w' {
                                if s[6] == 's' {
                                    Some(Primitive::Windows)
                                } else {
                                    None
                                }
                            } else {
                                None
                            }
                        } else {
                            None
                        }
                    } else {
                        None
                    }
                } else {
                    None
                }
            } else {
                None
            }
        } else if s[0] == 'i' {
            if s[1] == 'n' {
                if s[2] == 'd' {
                    if s[3] == 'e' {
                        if s[4] == 'x' {
                            if s[5] == 'o' {
                                if s[6] == 'f' {
                                    Some(Primitive::IndexOf)
                                } else {
                                    None
                                }
                            } else {
                                None
                            }
                        } else {
                            None
                        }
                    } else {
                        None
                    }
                } else {
                    None
                }
            } else {
                None
            }
        } else if s[0] == 's' {
            if s[1] == 't' {
                if s[2] == 'e' {
                    if s[3] == 'n' {
                        if s[4] == 'c' {
                            if s[5] == 'i' {
                                if s[6] == 'l' {
                                    Some(Primitive::Stencil)
                                } else {
                                    None
                                }
                            } else {
                                None
                            }
                        } else {
                            None
                        }
                    } else {
                        None
                    }
                } else {
                    None
                }
            } else {
                None
            }
        } else if s[0] == 'o' {
            if s[1] == 'b' {
                if s[2] == 'v' {
                    if s[3] == 'e' {
                        if s[4] == 'r' {
                            if s[5] == 's' {
                                if s[6] == 'e' {
                                    Some(Primitive::Obverse)
                                } else {
                                    None
                                }
                            } else {
                                None
                            }
                        } else {
                            None
                        }
                    } else {
                        None
                    }
                } else {
                    None
                }
            } else {
                None
            }
        } else if s[0] == 't' {
            if s[1] == 'r' {
                if s[2] == 'y' {
                    if s[3] == 'r' {
                        if s[4] == 'e' {
                            if s[5] == 'c' {
                                if s[6] == 'v' {
                                    Some(Primitive::TryRecv)
                                } else {
                                    None
                                }
                            } else {
                                None
                            }
                        } else {
                            None
                        }
                    } else {
                        None
                    }
                } else {
                    None
                }
            } else {
                None
            }
        } else {
            None
        }
    } else if s.len() == 8 {
        if s[0] == 'i' {
            if s[1] == 'n' {
                if s[2] == 'f' {
                    if s[3] == 'i' {
                        if s[4] == 'n' {
                            if s[5] == 'i' {
                                if s[6] == 't' {
                                    if s[7] == 'y' {
                                        Some(Primitive::Infinity)
                                    } else {
                                        None
                                    }
                                } else {
                                    None
                                }
                            } else {
                                None
                            }
                        } else {
                            None
                        }
                    } else {
                        None
                    }
                } else {
                    None
                }
            } else if s[1] == 'd' {
                if s[2] == 'e' {
                    if s[3] == 'n' {
                        if s[4] == 't' {
                            if s[5] == 'i' {
                                if s[6] == 't' {
                                    if s[7] == 'y' {
                                        Some(Primitive::Identity)
                                    } else {
                                        None
                                    }
                                } else {
                                    None
                                }
                            } else {
                                None
                            }
                        } else {
                            None
                        }
                    } else {
                        None
                    }
                } else {
                    None
                }
            } else {
                None
            }
        } else if s[0] == 's' {
            if s[1] == 'u' {
                if s[2] == 'b' {
                    if s[3] == 't' {
                        if s[4] == 'r' {
                            if s[5] == 'a' {
                                if s[6] == 'c' {
                                    if s[7] == 't' {
                                        Some(Primitive::Sub)
                                    } else {
                                        None
                                    }
                                } else {
                                    None
                                }
                            } else {
                                None
                            }
                        } else {
                            None
                        }
                    } else {
                        None
                    }
                } else {
                    None
                }
            } else {
                None
            }
        } else if s[0] == 'm' {
            if s[1] == 'u' {
                if s[2] == 'l' {
                    if s[3] == 't' {
                        if s[4] == 'i' {
                            if s[5] == 'p' {
                                if s[6] == 'l' {
                                    if s[7] == 'y' {
                                        Some(Primitive::Mul)
                                    } else {
                                        None
                                    }
                                } else {
                                    None
                                }
                            } else {
                                None
                            }
                        } else {
                            None
                        }
                    } else {
                        None
                    }
                } else {
                    None
                }
            } else if s[1] == 'e' {
                if s[2] == 'm' {
                    if s[3] == 'b' {
                        if s[4] == 'e' {
                            if s[5] == 'r' {
                                if s[6] == 'o' {
                                    if s[7] == 'f' {
                                        Some(Primitive::MemberOf)
                                    } else {
                                        None
                                    }
                                } else {
                                    None
                                }
                            } else {
                                None
                            }
                        } else {
                            None
                        }
                    } else {
                        None
                    }
                } else {
                    None
                }
            } else {
                None
            }
        } else if s[0] == 'a' {
            if s[1] == 't' {
                if s[2] == 'a' {
                    if s[3] == 'n' {
                        if s[4] == 'g' {
                            if s[5] == 'e' {
                                if s[6] == 'n' {
                                    if s[7] == 't' {
                                        Some(Primitive::Atan)
                                    } else {
                                        None
                                    }
                                } else {
                                    None
                                }
                            } else {
                                None
                            }
                        } else {
                            None
                        }
                    } else {
                        None
                    }
                } else {
                    None
                }
            } else {
                None
            }
        } else if s[0] == 'c' {
            if s[1] == 'l' {
                if s[2] == 'a' {
                    if s[3] == 's' {
                        if s[4] == 's' {
                            if s[5] == 'i' {
                                if s[6] == 'f' {
                                    if s[7] == 'y' {
                                        Some(Primitive::Classify)
                                    } else {
                                        None
                                    }
                                } else {
                                    None
                                }
                            } else {
                                None
                            }
                        } else {
                            None
                        }
                    } else {
                        None
                    }
                } else {
                    None
                }
            } else if s[1] == 'o' {
                if s[2] == 'm' {
                    if s[3] == 'p' {
                        if s[4] == 't' {
                            if s[5] == 'i' {
                                if s[6] == 'm' {
                                    if s[7] == 'e' {
                                        Some(Primitive::Comptime)
                                    } else {
                                        None
                                    }
                                } else {
                                    None
                                }
                            } else {
                                None
                            }
                        } else {
                            None
                        }
                    } else {
                        None
                    }
                } else {
                    None
                }
            } else {
                None
            }
        } else if s[0] == 't' {
            if s[1] == 'i' {
                if s[2] == 'm' {
                    if s[3] == 'e' {
                        if s[4] == 'z' {
                            if s[5] == 'o' {
                                if s[6] == 'n' {
                                    if s[7] == 'e' {
                                        Some(Primitive::TimeZone)
                                    } else {
                                        None
                                    }
                                } else {
                                    None
                                }
                            } else {
                                None
                            }
                        } else {
                            None
                        }
                    } else {
                        None
                    }
                } else {
                    None
                }
            } else {
                None
            }
        } else if s[0] == 'd' {
            if s[1] == 'a' {
                if s[2] == 't' {
                    if s[3] == 'e' {
                        if s[4] == 't' {
                            if s[5] == 'i' {
                                if s[6] == 'm' {
                                    if s[7] == 'e' {
                                        Some(Primitive::DateTime)
                                    } else {
                                        None
                                    }
                                } else {
                                    None
                                }
                            } else {
                                None
                            }
                        } else {
                            None
                        }
                    } else {
                        None
                    }
                } else {
                    None
                }
            } else {
                None
            }
        } else {
            None
        }
    } else if s.len() == 9 {
        if s[0] == 'd' {
            if s[1] == 'u' {
                if s[2] == 'p' {
                    if s[3] == 'l' {
                        if s[4] == 'i' {
                            if s[5] == 'c' {
                                if s[6] == 'a' {
                                    if s[7] == 't' {
                                        if s[8] == 'e' {
                                            Some(Primitive::Dup)
                                        } else {
                                            None
                                        }
                                    } else {
                                        None
                                    }
                                } else {
                                    None
                                }
                            } else {
                                None
                            }
                        } else {
                            None
                        }
                    } else {
                        None
                    }
                } else {
                    None
                }
            } else {
                None
            }
        } else if s[0] == 'l' {
            if s[1] == 'e' {
                if s[2] == 's' {
                    if s[3] == 's' {
                        if s[4] == ' ' {
                            if s[5] == 't' {
                                if s[6] == 'h' {
                                    if s[7] == 'a' {
                                        if s[8] == 'n' {
                                            Some(Primitive::Lt)
                                        } else {
                                            None
                                        }
                                    } else {
                                        None
                                    }
                                } else {
                                    None
                                }
                            } else {
                                None
                            }
                        } else {
                            None
                        }
                    } else {
                        None
                    }
                } else {
                    None
                }
            } else if s[1] == 'o' {
                if s[2] == 'g' {
                    if s[3] == 'a' {
                        if s[4] == 'r' {
                            if s[5] == 'i' {
                                if s[6] == 't' {
                                    if s[7] == 'h' {
                                        if s[8] == 'm' {
                                            Some(Primitive::Log)
                                        } else {
                                            None
                                        }
                                    } else {
                                        None
                                    }
                                } else {
                                    None
                                }
                            } else {
                                None
                            }
                        } else {
                            None
                        }
                    } else {
                        None
                    }
                } else {
                    None
                }
            } else {
                None
            }
        } else if s[0] == 't' {
            if s[1] == 'r' {
                if s[2] == 'a' {
                    if s[3] == 'n' {
                        if s[4] == 's' {
                            if s[5] == 'p' {
                                if s[6] == 'o' {
                                    if s[7] == 's' {
                                        if s[8] == 'e' {
                                            Some(Primitive::Transpose)
                                        } else {
                                            None
                                        }
                                    } else {
                                        None
                                    }
                                } else {
                                    None
                                }
                            } else {
                                None
                            }
                        } else {
                            None
                        }
                    } else {
                        None
                    }
                } else {
                    None
                }
            } else {
                None
            }
        } else if s[0] == 'i' {
            if s[1] == 'n' {
                if s[2] == 'v' {
                    if s[3] == 'e' {
                        if s[4] == 'n' {
                            if s[5] == 't' {
                                if s[6] == 'o' {
                                    if s[7] == 'r' {
                                        if s[8] == 'y' {
                                            Some(Primitive::Inventory)
                                        } else {
                                            None
                                        }
                                    } else {
                                        None
                                    }
                                } else {
                                    None
                                }
                            } else {
                                None
                            }
                        } else {
                            None
                        }
                    } else {
                        None
                    }
                } else {
                    None
                }
            } else {
                None
            }
        } else if s[0] == 'p' {
            if s[1] == 'a' {
                if s[2] == 'r' {
                    if s[3] == 't' {
                        if s[4] == 'i' {
                            if s[5] == 't' {
                                if s[6] == 'i' {
                                    if s[7] == 'o' {
                                        if s[8] == 'n' {
                                            Some(Primitive::Partition)
                                        } else {
                                            None
                                        }
                                    } else {
                                        None
                                    }
                                } else {
                                    None
                                }
                            } else {
                                None
                            }
                        } else {
                            None
                        }
                    } else {
                        None
                    }
                } else {
                    None
                }
            } else {
                None
            }
        } else if s[0] == 's' {
            if s[1] == 'i' {
                if s[2] == 'g' {
                    if s[3] == 'n' {
                        if s[4] == 'a' {
                            if s[5] == 't' {
                                if s[6] == 'u' {
                                    if s[7] == 'r' {
                                        if s[8] == 'e' {
                                            Some(Primitive::Sig)
                                        } else {
                                            None
                                        }
                                    } else {
                                        None
                                    }
                                } else {
                                    None
                                }
                            } else {
                                None
                            }
                        } else {
                            None
                        }
                    } else {
                        None
                    }
                } else {
                    None
                }
            } else if s[1] == 't' {
                if s[2] == 'r' {
                    if s[3] == 'i' {
                        if s[4] == 'n' {
                            if s[5] == 'g' {
                                if s[6] == 'i' {
                                    if s[7] == 'f' {
                                        if s[8] == 'y' {
                                            Some(Primitive::Stringify)
                                        } else {
                                            None
                                        }
                                    } else {
                                        None
                                    }
                                } else {
                                    None
                                }
                            } else {
                                None
                            }
                        } else {
                            None
                        }
                    } else {
                        None
                    }
                } else {
                    None
                }
            } else {
                None
            }
        } else if s[0] == 'g' {
            if s[1] == 'r' {
                if s[2] == 'a' {
                    if s[3] == 'p' {
                        if s[4] == 'h' {
                            if s[5] == 'e' {
                                if s[6] == 'm' {
                                    if s[7] == 'e' {
                                        if s[8] == 's' {
                                            Some(Primitive::Graphemes)
                                        } else {
                                            None
                                        }
                                    } else {
                                        None
                                    }
                                } else {
                                    None
                                }
                            } else {
                                None
                            }
                        } else {
                            None
                        }
                    } else {
                        None
                    }
                } else {
                    None
                }
            } else {
                None
            }
        } else {
            None
        }
    } else if s.len() == 10 {
        if s[0] == 'n' {
            if s[1] == 'o' {
                if s[2] == 't' {
                    if s[3] == ' ' {
                        if s[4] == 'e' {
                            if s[5] == 'q' {
                                if s[6] == 'u' {
                                    if s[7] == 'a' {
                                        if s[8] == 'l' {
                                            if s[9] == 's' {
                                                Some(Primitive::Ne)
                                            } else {
                                                None
                                            }
                                        } else {
                                            None
                                        }
                                    } else {
                                        None
                                    }
                                } else {
                                    None
                                }
                            } else {
                                None
                            }
                        } else {
                            None
                        }
                    } else {
                        None
                    }
                } else {
                    None
                }
            } else {
                None
            }
        } else {
            None
        }
    } else if s.len() == 11 {
        if s[0] == 'd' {
            if s[1] == 'e' {
                if s[2] == 'd' {
                    if s[3] == 'u' {
                        if s[4] == 'p' {
                            if s[5] == 'l' {
                                if s[6] == 'i' {
                                    if s[7] == 'c' {
                                        if s[8] == 'a' {
                                            if s[9] == 't' {
                                                if s[10] == 'e' {
                                                    Some(Primitive::Deduplicate)
                                                } else {
                                                    None
                                                }
                                            } else {
                                                None
                                            }
                                        } else {
                                            None
                                        }
                                    } else {
                                        None
                                    }
                                } else {
                                    None
                                }
                            } else {
                                None
                            }
                        } else {
                            None
                        }
                    } else {
                        None
                    }
                } else {
                    None
                }
            } else {
                None
            }
        } else {
            None
        }
    } else if s.len() == 12 {
        if s[0] == 'g' {
            if s[1] == 'r' {
                if s[2] == 'e' {
                    if s[3] == 'a' {
                        if s[4] == 't' {
                            if s[5] == 'e' {
                                if s[6] == 'r' {
                                    if s[7] == ' ' {
                                        if s[8] == 't' {
                                            if s[9] == 'h' {
                                                if s[10] == 'a' {
                                                    if s[11] == 'n' {
                                                        Some(Primitive::Gt)
                                                    } else {
                                                        None
                                                    }
                                                } else {
                                                    None
                                                }
                                            } else {
                                                None
                                            }
                                        } else {
                                            None
                                        }
                                    } else {
                                        None
                                    }
                                } else {
                                    None
                                }
                            } else {
                                None
                            }
                        } else {
                            None
                        }
                    } else {
                        None
                    }
                } else {
                    None
                }
            } else {
                None
            }
        } else {
            None
        }
    } else if s.len() == 13 {
        if s[0] == 'l' {
            if s[1] == 'e' {
                if s[2] == 's' {
                    if s[3] == 's' {
                        if s[4] == ' ' {
                            if s[5] == 'o' {
                                if s[6] == 'r' {
                                    if s[7] == ' ' {
                                        if s[8] == 'e' {
                                            if s[9] == 'q' {
                                                if s[10] == 'u' {
                                                    if s[11] == 'a' {
                                                        if s[12] == 'l' {
                                                            Some(Primitive::Le)
                                                        } else {
                                                            None
                                                        }
                                                    } else {
                                                        None
                                                    }
                                                } else {
                                                    None
                                                }
                                            } else {
                                                None
                                            }
                                        } else {
                                            None
                                        }
                                    } else {
                                        None
                                    }
                                } else {
                                    None
                                }
                            } else {
                                None
                            }
                        } else {
                            None
                        }
                    } else {
                        None
                    }
                } else {
                    None
                }
            } else {
                None
            }
        } else {
            None
        }
    } else if s.len() == 14 {
        if s[0] == 'a' {
            if s[1] == 'b' {
                if s[2] == 's' {
                    if s[3] == 'o' {
                        if s[4] == 'l' {
                            if s[5] == 'u' {
                                if s[6] == 't' {
                                    if s[7] == 'e' {
                                        if s[8] == ' ' {
                                            if s[9] == 'v' {
                                                if s[10] == 'a' {
                                                    if s[11] == 'l' {
                                                        if s[12] == 'u' {
                                                            if s[13] == 'e' {
                                                                Some(Primitive::Abs)
                                                            } else {
                                                                None
                                                            }
                                                        } else {
                                                            None
                                                        }
                                                    } else {
                                                        None
                                                    }
                                                } else {
                                                    None
                                                }
                                            } else {
                                                None
                                            }
                                        } else {
                                            None
                                        }
                                    } else {
                                        None
                                    }
                                } else {
                                    None
                                }
                            } else {
                                None
                            }
                        } else {
                            None
                        }
                    } else {
                        None
                    }
                } else {
                    None
                }
            } else {
                None
            }
        } else {
            None
        }
    } else if s.len() == 16 {
        if s[0] == 'g' {
            if s[1] == 'r' {
                if s[2] == 'e' {
                    if s[3] == 'a' {
                        if s[4] == 't' {
                            if s[5] == 'e' {
                                if s[6] == 'r' {
                                    if s[7] == ' ' {
                                        if s[8] == 'o' {
                                            if s[9] == 'r' {
                                                if s[10] == ' ' {
                                                    if s[11] == 'e' {
                                                        if s[12] == 'q' {
                                                            if s[13] == 'u' {
                                                                if s[14] == 'a' {
                                                                    if s[15] == 'l' {
                                                                        Some(Primitive::Ge)
                                                                    } else {
                                                                        None
                                                                    }
                                                                } else {
                                                                    None
                                                                }
                                                            } else {
                                                                None
                                                            }
                                                        } else {
                                                            None
                                                        }
                                                    } else {
                                                        None
                                                    }
                                                } else {
                                                    None
                                                }
                                            } else {
                                                None
                                            }
                                        } else {
                                            None
                                        }
                                    } else {
                                        None
                                    }
                                } else {
                                    None
                                }
                            } else {
                                None
                            }
                        } else {
                            None
                        }
                    } else {
                        None
                    }
                } else {
                    None
                }
            } else {
                None
            }
        } else {
            None
        }
    } else {
        None
    }
}

/// The primitive that a glyph belongs to
spec fn primitive_with_glyph(c: char) -> Option<Primitive> {
    if c == 'η' {
        Some(Primitive::Eta)
    } else if c == 'π' {
        Some(Primitive::Pi)
    } else if c == 'τ' {
        Some(Primitive::Tau)
    } else if c == '∞' {
        Some(Primitive::Infinity)
    } else if c == '∘' {
        Some(Primitive::Identity)
    } else if c == '.' {
        Some(Primitive::Dup)
    } else if c == ':' {
        Some(Primitive::Flip)
    } else if c == ',' {
        Some(Primitive::Over)
    } else if c == '’' {
        Some(Primitive::Around)
    } else if c == '◌' {
        Some(Primitive::Pop)
    } else if c == '⋅' {
        Some(Primitive::Gap)
    } else if c == '⊙' {
        Some(Primitive::Dip)
    } else if c == '∩' {
        Some(Primitive::Both)
    } else if c == '⊃' {
        Some(Primitive::Fork)
    } else if c == '⊓' {
        Some(Primitive::Bracket)
    } else if c == '⟜' {
        Some(Primitive::On)
    } else if c == '⊸' {
        Some(Primitive::By)
    } else if c == '⤙' {
        Some(Primitive::With)
    } else if c == '⤚' {
        Some(Primitive::Off)
    } else if c == '◠' {
        Some(Primitive::Above)
    } else if c == '◡' {
        Some(Primitive::Below)
    } else if c == '˙' {
        Some(Primitive::Slf)
    } else if c == '𝄐' {
        Some(Primitive::Reach)
    } else if c == '¬' {
        Some(Primitive::Not)
    } else if c == '±' {
        Some(Primitive::Sign)
    } else if c == '¯' {
        Some(Primitive::Neg)
    } else if c == '⌵' {
        Some(Primitive::Abs)
    } else if c == '√' {
        Some(Primitive::Sqrt)
    } else if c == '∿' {
        Some(Primitive::Sin)
    } else if c == '⌊' {
        Some(Primitive::Floor)
    } else if c == '⌈' {
        Some(Primitive::Ceil)
    } else if c == '⁅' {
        Some(Primitive::Round)
    } else if c == '=' {
        Some(Primitive::Eq)
    } else if c == '≠' {
        Some(Primitive::Ne)
    } else if c == '<' {
        Some(Primitive::Lt)
    } else if c == '≤' {
        Some(Primitive::Le)
    } else if c == '>' {
        Some(Primitive::Gt)
    } else if c == '≥' {
        Some(Primitive::Ge)
    } else if c == '+' {
        Some(Primitive::Add)
    } else if c == '-' {
        Some(Primitive::Sub)
    } else if c == '×' {
        Some(Primitive::Mul)
    } else if c == '÷' {
        Some(Primitive::Div)
    } else if c == '◿' {
        Some(Primitive::Modulus)
    } else if c == '∨' {
        Some(Primitive::Or)
    } else if c == 'ⁿ' {
        Some(Primitive::Pow)
    } else if c == 'ₙ' {
        Some(Primitive::Log)
    } else if c == '↧' {
        Some(Primitive::Min)
    } else if c == '↥' {
        Some(Primitive::Max)
    } else if c == '∠' {
        Some(Primitive::Atan)
    } else if c == '⧻' {
        Some(Primitive::Len)
    } else if c == '△' {
        Some(Primitive::Shape)
    } else if c == '⇡' {
        Some(Primitive::Range)
    } else if c == '⊢' {
        Some(Primitive::First)
    } else if c == '⊣' {
        Some(Primitive::Last)
    } else if c == '⇌' {
        Some(Primitive::Reverse)
    } else if c == '♭' {
        Some(Primitive::Deshape)
    } else if c == '¤' {
        Some(Primitive::Fix)
    } else if c == '⋯' {
        Some(Primitive::Bits)
    } else if c == '⍉' {
        Some(Primitive::Transpose)
    } else if c == '⍆' {
        Some(Primitive::Sort)
    } else if c == '⍏' {
        Some(Primitive::Rise)
    } else if c == '⍖' {
        Some(Primitive::Fall)
    } else if c == '⊚' {
        Some(Primitive::Where)
    } else if c == '⊛' {
        Some(Primitive::Classify)
    } else if c == '◴' {
        Some(Primitive::Deduplicate)
    } else if c == '◰' {
        Some(Primitive::Unique)
    } else if c == '□' {
        Some(Primitive::Box)
    } else if c == '≍' {
        Some(Primitive::Match)
    } else if c == '⊟' {
        Some(Primitive::Couple)
    } else if c == '⊂' {
        Some(Primitive::Join)
    } else if c == '⊏' {
        Some(Primitive::Select)
    } else if c == '⊡' {
        Some(Primitive::Pick)
    } else if c == '↯' {
        Some(Primitive::Reshape)
    } else if c == '☇' {
        Some(Primitive::Rerank)
    } else if c == '↙' {
        Some(Primitive::Take)
    } else if c == '↘' {
        Some(Primitive::Drop)
    } else if c == '↻' {
        Some(Primitive::Rotate)
    } else if c == '⤸' {
        Some(Primitive::Orient)
    } else if c == '◫' {
        Some(Primitive::Windows)
    } else if c == '▽' {
        Some(Primitive::Keep)
    } else if c == '⌕' {
        Some(Primitive::Find)
    } else if c == '⦷' {
        Some(Primitive::Mask)
    } else if c == '∊' {
        Some(Primitive::MemberOf)
    } else if c == '⊗' {
        Some(Primitive::IndexOf)
    } else if c == '⊥' {
        Some(Primitive::Base)
    } else if c == '∵' {
        Some(Primitive::Each)
    } else if c == '≡' {
        Some(Primitive::Rows)
    } else if c == '⊞' {
        Some(Primitive::Table)
    } else if c == '⍚' {
        Some(Primitive::Inventory)
    } else if c == '⍥' {
        Some(Primitive::Repeat)
    } else if c == '⍢' {
        Some(Primitive::Do)
    } else if c == '⧅' {
        Some(Primitive::Tuples)
    } else if c == '⧈' {
        Some(Primitive::Stencil)
    } else if c == '/' {
        Some(Primitive::Reduce)
    } else if c == '∧' {
        Some(Primitive::Fold)
    } else if c == '\\' {
        Some(Primitive::Scan)
    } else if c == '⊕' {
        Some(Primitive::Group)
    } else if c == '⊜' {
        Some(Primitive::Partition)
    } else if c == '°' {
        Some(Primitive::Un)
    } else if c == '⌝' {
        Some(Primitive::Anti)
    } else if c == '⍜' {
        Some(Primitive::Under)
    } else if c == '⌅' {
        Some(Primitive::Obverse)
    } else if c == '◇' {
        Some(Primitive::Content)
    } else if c == '⬚' {
        Some(Primitive::Fill)
    } else if c == '⍣' {
        Some(Primitive::Try)
    } else if c == '⨬' {
        Some(Primitive::Switch)
    } else if c == '⸮' {
        Some(Primitive::Trace)
    } else if c == '?' {
        Some(Primitive::Stack)
    } else if c == '⍤' {
        Some(Primitive::Assert)
    } else if c == '↰' {
        Some(Primitive::Spawn)
    } else if c == '↱' {
        Some(Primitive::Pool)
    } else if c == '⋕' {
        Some(Primitive::Parse)
    } else if c == '⚂' {
        Some(Primitive::Rand)
    } else {
        None
    }
}

/// The primitive that an ASCII token belongs to
spec fn primitive_with_ascii(a: AsciiToken) -> Primitive {
    match a {
        AsciiToken::Star => Primitive::Mul,
        AsciiToken::Percent => Primitive::Div,
        AsciiToken::Backtick => Primitive::Neg,
        AsciiToken::BangEqual => Primitive::Ne,
        AsciiToken::LessEqual => Primitive::Le,
        AsciiToken::GreaterEqual => Primitive::Ge,
    }
}

/// Every primitive occurs in the list of all primitives
pub proof fn lemma_all_contains(p: Primitive)
    ensures
        Primitive::spec_all().contains(p),
{
    match p {
            Primitive::Eta => assert(Primitive::spec_all()[0] == p),
            Primitive::Pi => assert(Primitive::spec_all()[1] == p),
            Primitive::Tau => assert(Primitive::spec_all()[2] == p),
            Primitive::Infinity => assert(Primitive::spec_all()[3] == p),
            Primitive::Identity => assert(Primitive::spec_all()[4] == p),
            Primitive::Dup => assert(Primitive::spec_all()[5] == p),
            Primitive::Flip => assert(Primitive::spec_all()[6] == p),
            Primitive::Over => assert(Primitive::spec_all()[7] == p),
            Primitive::Around => assert(Primitive::spec_all()[8] == p),
            Primitive::Pop => assert(Primitive::spec_all()[9] == p),
            Primitive::Gap => assert(Primitive::spec_all()[10] == p),
            Primitive::Dip => assert(Primitive::spec_all()[11] == p),
            Primitive::Both => assert(Primitive::spec_all()[12] == p),
            Primitive::Fork => assert(Primitive::spec_all()[13] == p),
            Primitive::Bracket => assert(Primitive::spec_all()[14] == p),
            Primitive::On => assert(Primitive::spec_all()[15] == p),
            Primitive::By => assert(Primitive::spec_all()[16] == p),
            Primitive::With => assert(Primitive::spec_all()[17] == p),
            Primitive::Off => assert(Primitive::spec_all()[18] == p),
            Primitive::Above => assert(Primitive::spec_all()[19] == p),
            Primitive::Below => assert(Primitive::spec_all()[20] == p),
            Primitive::Slf => assert(Primitive::spec_all()[21] == p),
            Primitive::Reach => assert(Primitive::spec_all()[22] == p),
            Primitive::Not => assert(Primitive::spec_all()[23] == p),
            Primitive::Sign => assert(Primitive::spec_all()[24] == p),
            Primitive::Neg => assert(Primitive::spec_all()[25] == p),
            Primitive::Abs => assert(Primitive::spec_all()[26] == p),
            Primitive::Sqrt => assert(Primitive::spec_all()[27] == p),
            Primitive::Sin => assert(Primitive::spec_all()[28] == p),
            Primitive::Floor => assert(Primitive::spec_all()[29] == p),
            Primitive::Ceil => assert(Primitive::spec_all()[30] == p),
            Primitive::Round => assert(Primitive::spec_all()[31] == p),
            Primitive::Eq => assert(Primitive::spec_all()[32] == p),
            Primitive::Ne => assert(Primitive::spec_all()[33] == p),
            Primitive::Lt => assert(Primitive::spec_all()[34] == p),
            Primitive::Le => assert(Primitive::spec_all()[35] == p),
            Primitive::Gt => assert(Primitive::spec_all()[36] == p),
            Primitive::Ge => assert(Primitive::spec_all()[37] == p),
            Primitive::Add => assert(Primitive::spec_all()[38] == p),
            Primitive::Sub => assert(Primitive::spec_all()[39] == p),
            Primitive::Mul => assert(Primitive::spec_all()[40] == p),
            Primitive::Div => assert(Primitive::spec_all()[41] == p),
            Primitive::Modulus => assert(Primitive::spec_all()[42] == p),
            Primitive::Or => assert(Primitive::spec_all()[43] == p),
            Primitive::Pow => assert(Primitive::spec_all()[44] == p),
            Primitive::Log => assert(Primitive::spec_all()[45] == p),
            Primitive::Min => assert(Primitive::spec_all()[46] == p),
            Primitive::Max => assert(Primitive::spec_all()[47] == p),
            Primitive::Atan => assert(Primitive::spec_all()[48] == p),
            Primitive::Len => assert(Primitive::spec_all()[49] == p),
            Primitive::Shape => assert(Primitive::spec_all()[50] == p),
            Primitive::Range => assert(Primitive::spec_all()[51] == p),
            Primitive::First => assert(Primitive::spec_all()[52] == p),
            Primitive::Last => assert(Primitive::spec_all()[53] == p),
            Primitive::Reverse => assert(Primitive::spec_all()[54] == p),
            Primitive::Deshape => assert(Primitive::spec_all()[55] == p),
            Primitive::Fix => assert(Primitive::spec_all()[56] == p),
            Primitive::Bits => assert(Primitive::spec_all()[57] == p),
            Primitive::Transpose => assert(Primitive::spec_all()[58] == p),
            Primitive::Sort => assert(Primitive::spec_all()[59] == p),
            Primitive::Rise => assert(Primitive::spec_all()[60] == p),
            Primitive::Fall => assert(Primitive::spec_all()[61] == p),
            Primitive::Where => assert(Primitive::spec_all()[62] == p),
            Primitive::Classify => assert(Primitive::spec_all()[63] == p),
            Primitive::Deduplicate => assert(Primitive::spec_all()[64] == p),
            Primitive::Unique => assert(Primitive::spec_all()[65] == p),
            Primitive::Box => assert(Primitive::spec_all()[66] == p),
            Primitive::Match => assert(Primitive::spec_all()[67] == p),
            Primitive::Couple => assert(Primitive::spec_all()[68] == p),
            Primitive::Join => assert(Primitive::spec_all()[69] == p),
            Primitive::Select => assert(Primitive::spec_all()[70] == p),
            Primitive::Pick => assert(Primitive::spec_all()[71] == p),
            Primitive::Reshape => assert(Primitive::spec_all()[72] == p),
            Primitive::Rerank => assert(Primitive::spec_all()[73] == p),
            Primitive::Take => assert(Primitive::spec_all()[74] == p),
            Primitive::Drop => assert(Primitive::spec_all()[75] == p),
            Primitive::Rotate => assert(Primitive::spec_all()[76] == p),
            Primitive::Orient => assert(Primitive::spec_all()[77] == p),
            Primitive::Windows => assert(Primitive::spec_all()[78] == p),
            Primitive::Keep => assert(Primitive::spec_all()[79] == p),
            Primitive::Find => assert(Primitive::spec_all()[80] == p),
            Primitive::Mask => assert(Primitive::spec_all()[81] == p),
            Primitive::MemberOf => assert(Primitive::spec_all()[82] == p),
            Primitive::IndexOf => assert(Primitive::spec_all()[83] == p),
            Primitive::Base => assert(Primitive::spec_all()[84] == p),
            Primitive::Each => assert(Primitive::spec_all()[85] == p),
            Primitive::Rows => assert(Primitive::spec_all()[86] == p),
            Primitive::Table => assert(Primitive::spec_all()[87] == p),
            Primitive::Inventory => assert(Primitive::spec_all()[88] == p),
            Primitive::Repeat => assert(Primitive::spec_all()[89] == p),
            Primitive::Do => assert(Primitive::spec_all()[90] == p),
            Primitive::Tuples => assert(Primitive::spec_all()[91] == p),
            Primitive::Stencil => assert(Primitive::spec_all()[92] == p),
            Primitive::Reduce => assert(Primitive::spec_all()[93] == p),
            Primitive::Fold => assert(Primitive::spec_all()[94] == p),
            Primitive::Scan => assert(Primitive::spec_all()[95] == p),
            Primitive::Group => assert(Primitive::spec_all()[96] == p),
            Primitive::Partition => assert(Primitive::spec_all()[97] == p),
            Primitive::Un => assert(Primitive::spec_all()[98] == p),
            Primitive::Anti => assert(Primitive::spec_all()[99] == p),
            Primitive::Under => assert(Primitive::spec_all()[100] == p),
            Primitive::Obverse => assert(Primitive::spec_all()[101] == p),
            Primitive::Content => assert(Primitive::spec_all()[102] == p),
            Primitive::Fill => assert(Primitive::spec_all()[103] == p),
            Primitive::Try => assert(Primitive::spec_all()[104] == p),
            Primitive::Case => assert(Primitive::spec_all()[105] == p),
            Primitive::Switch => assert(Primitive::spec_all()[106] == p),
            Primitive::Astar => assert(Primitive::spec_all()[107] == p),
            Primitive::Path => assert(Primitive::spec_all()[108] == p),
            Primitive::Memo => assert(Primitive::spec_all()[109] == p),
            Primitive::Comptime => assert(Primitive::spec_all()[110] == p),
            Primitive::Quote => assert(Primitive::spec_all()[111] == p),
            Primitive::Sig => assert(Primitive::spec_all()[112] == p),
            Primitive::Stringify => assert(Primitive::spec_all()[113] == p),
            Primitive::Trace => assert(Primitive::spec_all()[114] == p),
            Primitive::Stack => assert(Primitive::spec_all()[115] == p),
            Primitive::Dump => assert(Primitive::spec_all()[116] == p),
            Primitive::Assert => assert(Primitive::spec_all()[117] == p),
            Primitive::Spawn => assert(Primitive::spec_all()[118] == p),
            Primitive::Pool => assert(Primitive::spec_all()[119] == p),
            Primitive::Wait => assert(Primitive::spec_all()[120] == p),
            Primitive::Send => assert(Primitive::spec_all()[121] == p),
            Primitive::Recv => assert(Primitive::spec_all()[122] == p),
            Primitive::TryRecv => assert(Primitive::spec_all()[123] == p),
            Primitive::Mapping => assert(Primitive::spec_all()[124] == p),
            Primitive::Insert => assert(Primitive::spec_all()[125] == p),
            Primitive::Has => assert(Primitive::spec_all()[126] == p),
            Primitive::Get => assert(Primitive::spec_all()[127] == p),
            Primitive::Remove => assert(Primitive::spec_all()[128] == p),
            Primitive::Parse => assert(Primitive::spec_all()[129] == p),
            Primitive::Utf8 => assert(Primitive::spec_all()[130] == p),
            Primitive::Graphemes => assert(Primitive::spec_all()[131] == p),
            Primitive::Rand => assert(Primitive::spec_all()[132] == p),
            Primitive::Gen => assert(Primitive::spec_all()[133] == p),
            Primitive::Tag => assert(Primitive::spec_all()[134] == p),
            Primitive::Type => assert(Primitive::spec_all()[135] == p),
            Primitive::Repr => assert(Primitive::spec_all()[136] == p),
            Primitive::Now => assert(Primitive::spec_all()[137] == p),
            Primitive::TimeZone => assert(Primitive::spec_all()[138] == p),
            Primitive::DateTime => assert(Primitive::spec_all()[139] == p),
            Primitive::Sys(op) => match op {
                SysOp::Exit => assert(Primitive::spec_all()[140] == p),
                SysOp::Sleep => assert(Primitive::spec_all()[141] == p),
                SysOp::ReadStr => assert(Primitive::spec_all()[142] == p),
                SysOp::ReadBytes => assert(Primitive::spec_all()[143] == p),
                SysOp::ReadUntil => assert(Primitive::spec_all()[144] == p),
                SysOp::ReadLines => assert(Primitive::spec_all()[145] == p),
                SysOp::Write => assert(Primitive::spec_all()[146] == p),
                SysOp::Close => assert(Primitive::spec_all()[147] == p),
                SysOp::FOpen => assert(Primitive::spec_all()[148] == p),
                SysOp::FCreate => assert(Primitive::spec_all()[149] == p),
                SysOp::FMakeDir => assert(Primitive::spec_all()[150] == p),
                SysOp::FDelete => assert(Primitive::spec_all()[151] == p),
                SysOp::FTrash => assert(Primitive::spec_all()[152] == p),
                SysOp::FExists => assert(Primitive::spec_all()[153] == p),
                SysOp::FListDir => assert(Primitive::spec_all()[154] == p),
                SysOp::FIsFile => assert(Primitive::spec_all()[155] == p),
                SysOp::FReadAllStr => assert(Primitive::spec_all()[156] == p),
                SysOp::FReadAllBytes => assert(Primitive::spec_all()[157] == p),
                SysOp::FWriteAll => assert(Primitive::spec_all()[158] == p),
            },
    }
}

/// A primitive's name identifies it
pub(crate) proof fn lemma_name_decodes(p: Primitive)
    ensures
        primitive_named(p.spec_name()) == Some(p),
        p.spec_name().len() >= 2,
{
    match p {
            Primitive::Eta => reveal_strlit("eta"),
            Primitive::Pi => reveal_strlit("pi"),
            Primitive::Tau => reveal_strlit("tau"),
            Primitive::Infinity => reveal_strlit("infinity"),
            Primitive::Identity => reveal_strlit("identity"),
            Primitive::Dup => reveal_strlit("duplicate"),
            Primitive::Flip => reveal_strlit("flip"),
            Primitive::Over => reveal_strlit("over"),
            Primitive::Around => reveal_strlit("around"),
            Primitive::Pop => reveal_strlit("pop"),
            Primitive::Gap => reveal_strlit("gap"),
            Primitive::Dip => reveal_strlit("dip"),
            Primitive::Both => reveal_strlit("both"),
            Primitive::Fork => reveal_strlit("fork"),
            Primitive::Bracket => reveal_strlit("bracket"),
            Primitive::On => reveal_strlit("on"),
            Primitive::By => reveal_strlit("by"),
            Primitive::With => reveal_strlit("with"),
            Primitive::Off => reveal_strlit("off"),
            Primitive::Above => reveal_strlit("above"),
            Primitive::Below => reveal_strlit("below"),
            Primitive::Slf => reveal_strlit("self"),
            Primitive::Reach => reveal_strlit("reach"),
            Primitive::Not => reveal_strlit("not"),
            Primitive::Sign => reveal_strlit("sign"),
            Primitive::Neg => reveal_strlit("negate"),
            Primitive::Abs => reveal_strlit("absolute value"),
            Primitive::Sqrt => reveal_strlit("sqrt"),
            Primitive::Sin => reveal_strlit("sine"),
            Primitive::Floor => reveal_strlit("floor"),
            Primitive::Ceil => reveal_strlit("ceiling"),
            Primitive::Round => reveal_strlit("round"),
            Primitive::Eq => reveal_strlit("equals"),
            Primitive::Ne => reveal_strlit("not equals"),
            Primitive::Lt => reveal_strlit("less than"),
            Primitive::Le => reveal_strlit("less or equal"),
            Primitive::Gt => reveal_strlit("greater than"),
            Primitive::Ge => reveal_strlit("greater or equal"),
            Primitive::Add => reveal_strlit("add"),
            Primitive::Sub => reveal_strlit("subtract"),
            Primitive::Mul => reveal_strlit("multiply"),
            Primitive::Div => reveal_strlit("divide"),
            Primitive::Modulus => reveal_strlit("modulus"),
            Primitive::Or => reveal_strlit("or"),
            Primitive::Pow => reveal_strlit("power"),
            Primitive::Log => reveal_strlit("logarithm"),
            Primitive::Min => reveal_strlit("minimum"),
            Primitive::Max => reveal_strlit("maximum"),
            Primitive::Atan => reveal_strlit("atangent"),
            Primitive::Len => reveal_strlit("length"),
            Primitive::Shape => reveal_strlit("shape"),
            Primitive::Range => reveal_strlit("range"),
            Primitive::First => reveal_strlit("first"),
            Primitive::Last => reveal_strlit("last"),
            Primitive::Reverse => reveal_strlit("reverse"),
            Primitive::Deshape => reveal_strlit("deshape"),
            Primitive::Fix => reveal_strlit("fix"),
            Primitive::Bits => reveal_strlit("bits"),
            Primitive::Transpose => reveal_strlit("transpose"),
            Primitive::Sort => reveal_strlit("sort"),
            Primitive::Rise => reveal_strlit("rise"),
            Primitive::Fall => reveal_strlit("fall"),
            Primitive::Where => reveal_strlit("where"),
            Primitive::Classify => reveal_strlit("classify"),
            Primitive::Deduplicate => reveal_strlit("deduplicate"),
            Primitive::Unique => reveal_strlit("unique"),
            Primitive::Box => reveal_strlit("box"),
            Primitive::Match => reveal_strlit("match"),
            Primitive::Couple => reveal_strlit("couple"),
            Primitive::Join => reveal_strlit("join"),
            Primitive::Select => reveal_strlit("select"),
            Primitive::Pick => reveal_strlit("pick"),
            Primitive::Reshape => reveal_strlit("reshape"),
            Primitive::Rerank => reveal_strlit("rerank"),
            Primitive::Take => reveal_strlit("take"),
            Primitive::Drop => reveal_strlit("drop"),
            Primitive::Rotate => reveal_strlit("rotate"),
            Primitive::Orient => reveal_strlit("orient"),
            Primitive::Windows => reveal_strlit("windows"),
            Primitive::Keep => reveal_strlit("keep"),
            Primitive::Find => reveal_strlit("find"),
            Primitive::Mask => reveal_strlit("mask"),
            Primitive::MemberOf => reveal_strlit("memberof"),
            Primitive::IndexOf => reveal_strlit("indexof"),
            Primitive::Base => reveal_strlit("base"),
            Primitive::Each => reveal_strlit("each"),
            Primitive::Rows => reveal_strlit("rows"),
            Primitive::Table => reveal_strlit("table"),
            Primitive::Inventory => reveal_strlit("inventory"),
            Primitive::Repeat => reveal_strlit("repeat"),
            Primitive::Do => reveal_strlit("do"),
            Primitive::Tuples => reveal_strlit("tuples"),
            Primitive::Stencil => reveal_strlit("stencil"),
            Primitive::Reduce => reveal_strlit("reduce"),
            Primitive::Fold => reveal_strlit("fold"),
            Primitive::Scan => reveal_strlit("scan"),
            Primitive::Group => reveal_strlit("group"),
            Primitive::Partition => reveal_strlit("partition"),
            Primitive::Un => reveal_strlit("un"),
            Primitive::Anti => reveal_strlit("anti"),
            Primitive::Under => reveal_strlit("under"),
            Primitive::Obverse => reveal_strlit("obverse"),
            Primitive::Content => reveal_strlit("content"),
            Primitive::Fill => reveal_strlit("fill"),
            Primitive::Try => reveal_strlit("try"),
            Primitive::Case => reveal_strlit("case"),
            Primitive::Switch => reveal_strlit("switch"),
            Primitive::Astar => reveal_strlit("astar"),
            Primitive::Path => reveal_strlit("path"),
            Primitive::Memo => reveal_strlit("memo"),
            Primitive::Comptime => reveal_strlit("comptime"),
            Primitive::Quote => reveal_strlit("quote"),
            Primitive::Sig => reveal_strlit("signature"),
            Primitive::Stringify => reveal_strlit("stringify"),
            Primitive::Trace => reveal_strlit("trace"),
            Primitive::Stack => reveal_strlit("stack"),
            Primitive::Dump => reveal_strlit("dump"),
            Primitive::Assert => reveal_strlit("assert"),
            Primitive::Spawn => reveal_strlit("spawn"),
            Primitive::Pool => reveal_strlit("pool"),
            Primitive::Wait => reveal_strlit("wait"),
            Primitive::Send => reveal_strlit("send"),
            Primitive::Recv => reveal_strlit("recv"),
            Primitive::TryRecv => reveal_strlit("tryrecv"),
            Primitive::Mapping => reveal_strlit("map"),
            Primitive::Insert => reveal_strlit("insert"),
            Primitive::Has => reveal_strlit("has"),
            Primitive::Get => reveal_strlit("get"),
            Primitive::Remove => reveal_strlit("remove"),
            Primitive::Parse => reveal_strlit("parse"),
            Primitive::Utf8 => reveal_strlit("utf₈"),
            Primitive::Graphemes => reveal_strlit("graphemes"),
            Primitive::Rand => reveal_strlit("random"),
            Primitive::Gen => reveal_strlit("gen"),
            Primitive::Tag => reveal_strlit("tag"),
            Primitive::Type => reveal_strlit("type"),
            Primitive::Repr => reveal_strlit("repr"),
            Primitive::Now => reveal_strlit("now"),
            Primitive::TimeZone => reveal_strlit("timezone"),
            Primitive::DateTime => reveal_strlit("datetime"),
            Primitive::Sys(op) => match op {
                SysOp::Exit => reveal_strlit("&exit"),
                SysOp::Sleep => reveal_strlit("&sl"),
                SysOp::ReadStr => reveal_strlit("&rs"),
                SysOp::ReadBytes => reveal_strlit("&rb"),
                SysOp::ReadUntil => reveal_strlit("&ru"),
                SysOp::ReadLines => reveal_strlit("&rl"),
                SysOp::Write => reveal_strlit("&w"),
                SysOp::Close => reveal_strlit("&cl"),
                SysOp::FOpen => reveal_strlit("&fo"),
                SysOp::FCreate => reveal_strlit("&fc"),
                SysOp::FMakeDir => reveal_strlit("&fmd"),
                SysOp::FDelete => reveal_strlit("&fde"),
                SysOp::FTrash => reveal_strlit("&ftr"),
                SysOp::FExists => reveal_strlit("&fe"),
                SysOp::FListDir => reveal_strlit("&fld"),
                SysOp::FIsFile => reveal_strlit("&fif"),
                SysOp::FReadAllStr => reveal_strlit("&fras"),
                SysOp::FReadAllBytes => reveal_strlit("&frab"),
                SysOp::FWriteAll => reveal_strlit("&fwa"),
            },
    }
}

/// A primitive's glyph identifies it
proof fn lemma_glyph_decodes(p: Primitive)
    requires
        p.spec_glyph() is Some,
    ensures
        primitive_with_glyph(p.spec_glyph().unwrap()) == Some(p),
{
}

/// A primitive's ASCII token identifies it
proof fn lemma_ascii_decodes(p: Primitive)
    requires
        p.spec_ascii() is Some,
    ensures
        primitive_with_ascii(p.spec_ascii().unwrap()) == p,
{
}

/// No two primitives share a name
pub proof fn lemma_names_distinct(p: Primitive, q: Primitive)
    requires
        p != q,
    ensures
        p.spec_name() != q.spec_name(),
{
    lemma_name_decodes(p);
    lemma_name_decodes(q);
}

/// No two primitives share a glyph
pub proof fn lemma_glyphs_distinct(p: Primitive, q: Primitive)
    requires
        p != q,
        p.spec_glyph() is Some,
    ensures
        p.spec_glyph() != q.spec_glyph(),
{
    lemma_glyph_decodes(p);
    if q.spec_glyph() is Some {
        lemma_glyph_decodes(q);
    }
}

/// Looking a primitive up by its name gives back that primitive
pub proof fn lemma_from_name_round_trip(p: Primitive)
    ensures
        first_match(Primitive::spec_all(), has_name(p.spec_name())) == Some(p),
{
    let all = Primitive::spec_all();
    let pred = has_name(p.spec_name());
    lemma_all_contains(p);
    let i = choose|i: int| 0 <= i < all.len() && all[i] == p;
    lemma_first_match_exists(all, pred, i);
    lemma_first_match_sound(all, pred);
    let q = first_match(all, pred).unwrap();
    if q != p {
        lemma_names_distinct(p, q);
    }
}

/// Looking a primitive up by its glyph gives back that primitive
pub proof fn lemma_from_glyph_round_trip(p: Primitive)
    requires
        p.spec_glyph() is Some,
    ensures
        first_match(Primitive::spec_all(), has_glyph(p.spec_glyph().unwrap())) == Some(p),
{
    let all = Primitive::spec_all();
    let pred = has_glyph(p.spec_glyph().unwrap());
    lemma_all_contains(p);
    let i = choose|i: int| 0 <= i < all.len() && all[i] == p;
    lemma_first_match_exists(all, pred, i);
    lemma_first_match_sound(all, pred);
    let q = first_match(all, pred).unwrap();
    if q != p {
        lemma_glyphs_distinct(p, q);
    }
}

/// Looking a primitive up by its ASCII token gives back that primitive
pub proof fn lemma_from_ascii_round_trip(p: Primitive)
    requires
        p.spec_ascii() is Some,
    ensures
        first_match(Primitive::spec_all(), has_ascii(p.spec_ascii().unwrap())) == Some(p),
{
    let all = Primitive::spec_all();
    let pred = has_ascii(p.spec_ascii().unwrap());
    lemma_all_contains(p);
    let i = choose|i: int| 0 <= i < all.len() && all[i] == p;
    lemma_first_match_exists(all, pred, i);
    lemma_first_match_sound(all, pred);
    let q = first_match(all, pred).unwrap();
    lemma_ascii_decodes(p);
    lemma_ascii_decodes(q);
}


/// The primitive that owns an alias
pub(crate) open spec fn alias_owner(s: Seq<char>) -> Option<Primitive> {
    if s.len() == 2 {
        if s[0] == 'i' {
            if s[1] == 'd' {
                Some(Primitive::Identity)
            } else {
                None
            }
        } else if s[0] == 'g' {
            if s[1] == 'a' {
                Some(Primitive::Gap)
            } else if s[1] == 't' {
                Some(Primitive::Gt)
            } else if s[1] == 'e' {
                Some(Primitive::Ge)
            } else {
                None
            }
        } else if s[0] == 'p' {
            if s[1] == 'o' {
                Some(Primitive::Pop)
            } else {
                None
            }
        } else if s[0] == 'f' {
            if s[1] == 'x' {
                Some(Primitive::Fix)
            } else {
                None
            }
        } else if s[0] == 'b' {
            if s[1] == 'x' {
                Some(Primitive::Box)
            } else {
                None
            }
        } else if s[0] == 's' {
            if s[1] == 'w' {
                Some(Primitive::Switch)
            } else if s[1] == 't' {
                Some(Primitive::Stencil)
            } else {
                None
            }
        } else if s[0] == 'n' {
            if s[1] == 'e' {
                Some(Primitive::Ne)
            } else {
                None
            }
        } else if s[0] == 'e' {
            if s[1] == 'q' {
                Some(Primitive::Eq)
            } else {
                None
            }
        } else if s[0] == 'l' {
            if s[1] == 't' {
                Some(Primitive::Lt)
            } else if s[1] == 'e' {
                Some(Primitive::Le)
            } else {
                None
            }
        } else {
            None
        }
    } else if s.len() == 3 {
        if s[0] == 'i' {
            if s[1] == 'd' {
                if s[2] == 'x' {
                    Some(Primitive::IndexOf)
                } else {
                    None
                }
            } else {
                None
            }
        } else if s[0] == 'w' {
            if s[1] == 'i' {
                if s[2] == 'n' {
                    Some(Primitive::Stencil)
                } else {
                    None
                }
            } else {
                None
            }
        } else if s[0] == 'f' {
            if s[1] == 'l' {
                if s[2] == 'r' {
                    Some(Primitive::Floor)
                } else {
                    None
                }
            } else if s[1] == 's' {
                if s[2] == 't' {
                    Some(Primitive::First)
                } else {
                    None
                }
            } else {
                None
            }
        } else if s[0] == 'r' {
            if s[1] == 'a' {
                if s[2] == 'n' {
                    Some(Primitive::Range)
                } else {
                    None
                }
            } else {
                None
            }
        } else if s[0] == 'p' {
            if s[1] == 'a' {
                if s[2] == 'r' {
                    Some(Primitive::Partition)
                } else {
                    None
                }
            } else {
                None
            }
        } else if s[0] == 'd' {
            if s[1] == 'u' {
                if s[2] == 'p' {
                    Some(Primitive::Dup)
                } else {
                    None
                }
            } else {
                None
            }
        } else if s[0] == 'n' {
            if s[1] == 'e' {
                if s[2] == 'q' {
                    Some(Primitive::Ne)
                } else {
                    None
                }
            } else {
                None
            }
        } else if s[0] == 'l' {
            if s[1] == 'e' {
                if s[2] == 'q' {
                    Some(Primitive::Le)
                } else {
                    None
                }
            } else if s[1] == 's' {
                if s[2] == 't' {
                    Some(Primitive::Last)
                } else {
                    None
                }
            } else {
                None
            }
        } else if s[0] == 'g' {
            if s[1] == 'e' {
                if s[2] == 'q' {
                    Some(Primitive::Ge)
                } else {
                    None
                }
            } else {
                None
            }
        } else if s[0] == 'u' {
            if s[1] == 't' {
                if s[2] == 'f' {
                    Some(Primitive::Utf8)
                } else {
                    None
                }
            } else {
                None
            }
        } else if s[0] == 's' {
            if s[1] == 'l' {
                if s[2] == 'f' {
                    Some(Primitive::Slf)
                } else {
                    None
                }
            } else if s[1] == 'e' {
                if s[2] == 'l' {
                    Some(Primitive::Select)
                } else {
                    None
                }
            } else {
                None
            }
        } else {
            None
        }
    } else if s.len() == 4 {
        if s[0] == 'f' {
            if s[1] == 'l' {
                if s[2] == 'o' {
                    if s[3] == 'r' {
                        Some(Primitive::Floor)
                    } else {
                        None
                    }
                } else if s[2] == 'a' {
                    if s[3] == 't' {
                        Some(Primitive::Deshape)
                    } else {
                        None
                    }
                } else {
                    None
                }
            } else {
                None
            }
        } else {
            None
        }
    } else if s.len() == 6 {
        if s[0] == 'u' {
            if s[1] == 't' {
                if s[2] == 'f' {
                    if s[3] == '_' {
                        if s[4] == '_' {
                            if s[5] == '8' {
                                Some(Primitive::Utf8)
                            } else {
                                None
                            }
                        } else {
                            None
                        }
                    } else {
                        None
                    }
                } else {
                    None
                }
            } else {
                None
            }
        } else {
            None
        }
    } else {
        None
    }
}

/// Every alias of a primitive belongs to that primitive alone, is no primitive's name, and is
/// made of at least two lowercase ASCII letters and underscores
pub(crate) proof fn lemma_aliases_decode(q: Primitive, k: int)
    requires
        q.spec_aliases() is Some,
        0 <= k < q.spec_aliases().unwrap().len(),
    ensures
        alias_owner(q.spec_aliases().unwrap()[k]) == Some(q),
        primitive_named(q.spec_aliases().unwrap()[k]) is None,
        q.spec_aliases().unwrap()[k].len() >= 2,
        is_ascii_chars(q.spec_aliases().unwrap()[k]),
        Primitive::spec_alias_table().contains(q),
{
    match q {
        Primitive::Identity => {
            reveal_strlit("id");
            assert(Primitive::spec_alias_table()[0] == q);
        },
        Primitive::Gap => {
            reveal_strlit("ga");
            assert(Primitive::spec_alias_table()[1] == q);
        },
        Primitive::Pop => {
            reveal_strlit("po");
            assert(Primitive::spec_alias_table()[2] == q);
        },
        Primitive::Fix => {
            reveal_strlit("fx");
            assert(Primitive::spec_alias_table()[3] == q);
        },
        Primitive::Box => {
            reveal_strlit("bx");
            assert(Primitive::spec_alias_table()[4] == q);
        },
        Primitive::IndexOf => {
            reveal_strlit("idx");
            assert(Primitive::spec_alias_table()[5] == q);
        },
        Primitive::Switch => {
            reveal_strlit("sw");
            assert(Primitive::spec_alias_table()[6] == q);
        },
        Primitive::Stencil => {
            reveal_strlit("st"); reveal_strlit("win");
            assert(Primitive::spec_alias_table()[7] == q);
        },
        Primitive::Floor => {
            reveal_strlit("flr"); reveal_strlit("flor");
            assert(Primitive::spec_alias_table()[8] == q);
        },
        Primitive::Range => {
            reveal_strlit("ran");
            assert(Primitive::spec_alias_table()[9] == q);
        },
        Primitive::Partition => {
            reveal_strlit("par");
            assert(Primitive::spec_alias_table()[10] == q);
        },
        Primitive::Dup => {
            reveal_strlit("dup");
            assert(Primitive::spec_alias_table()[11] == q);
        },
        Primitive::Deshape => {
            reveal_strlit("flat");
            assert(Primitive::spec_alias_table()[12] == q);
        },
        Primitive::Ne => {
            reveal_strlit("ne"); reveal_strlit("neq");
            assert(Primitive::spec_alias_table()[13] == q);
        },
        Primitive::Eq => {
            reveal_strlit("eq");
            assert(Primitive::spec_alias_table()[14] == q);
        },
        Primitive::Lt => {
            reveal_strlit("lt");
            assert(Primitive::spec_alias_table()[15] == q);
        },
        Primitive::Le => {
            reveal_strlit("le"); reveal_strlit("leq");
            assert(Primitive::spec_alias_table()[16] == q);
        },
        Primitive::Gt => {
            reveal_strlit("gt");
            assert(Primitive::spec_alias_table()[17] == q);
        },
        Primitive::Ge => {
            reveal_strlit("ge"); reveal_strlit("geq");
            assert(Primitive::spec_alias_table()[18] == q);
        },
        Primitive::Utf8 => {
            reveal_strlit("utf"); reveal_strlit("utf__8");
            assert(Primitive::spec_alias_table()[19] == q);
        },
        Primitive::First => {
            reveal_strlit("fst");
            assert(Primitive::spec_alias_table()[20] == q);
        },
        Primitive::Last => {
            reveal_strlit("lst");
            assert(Primitive::spec_alias_table()[21] == q);
        },
        Primitive::Slf => {
            reveal_strlit("slf");
            assert(Primitive::spec_alias_table()[22] == q);
        },
        Primitive::Select => {
            reveal_strlit("sel");
            assert(Primitive::spec_alias_table()[23] == q);
        },
        _ => {},
    }
}

} // verus!
