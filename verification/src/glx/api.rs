use vstd::prelude::*;

verus! {

/// The value that stands for "any" in an attribute list.
pub const GLX_DONT_CARE: i32 = -1;

/// The value that stands for "none" where an attribute names a kind.
pub const GLX_NONE: i32 = 0x8000;

/// The render type of configurations with red, green, blue and alpha.
pub const GLX_RGBA_BIT: i32 = 0x0001;

/// The drawable type of configurations that windows can have.
pub const GLX_WINDOW_BIT: i32 = 0x0001;

/// The names of the three strings that a client can ask for.
pub const GLX_VENDOR: i32 = 1;

pub const GLX_VERSION: i32 = 2;

pub const GLX_EXTENSIONS: i32 = 3;

/// The window system's truth values.
pub const TRUE: i32 = 1;

pub const FALSE: i32 = 0;

/// The number of bits of a pixel of the one configuration there is.
pub const COLOR_DEPTH: i32 = 24;

/// The number of bits of each of its colour channels.
pub const COLOR_CHANNEL_DEPTH: i32 = 8;

/// Why an attribute or a list of attributes was not understood.
#[derive(Copy, Clone, Debug, PartialEq, Eq, Structural)]
pub enum AttribError {
    /// The number names no attribute.
    InvalidAttribute(i32),
    /// The value given for a truth-valued attribute is none of true, false
    /// and "any".
    InvalidBool(i32),
    /// The list ends before its terminating zero.
    Truncated,
}

/// The 32 bits of `value`, read as a number without sign.
pub open spec fn bits_of(value: i32) -> u32 {
    if value >= 0 {
        value as u32
    } else {
        (value + 0x1_0000_0000) as u32
    }
}

/// The 32 bits of `value`, read as a number without sign.
pub fn to_bits(value: i32) -> (bits: u32)
    ensures
        bits == bits_of(value),
{
    if value >= 0 {
        value as u32
    } else {
        (value as i64 + 0x1_0000_0000) as u32
    }
}

/// The truth value that a number stands for in a list of configuration
/// attributes: true, false, or `None` for "any".
pub open spec fn tristate_of(value: i32) -> Result<Option<bool>, AttribError> {
    if value == GLX_DONT_CARE {
        Ok(None)
    } else if value == FALSE {
        Ok(Some(false))
    } else if value == TRUE {
        Ok(Some(true))
    } else {
        Err(AttribError::InvalidBool(value))
    }
}

/// The truth value that a number stands for in a list of configuration
/// attributes.
pub fn tristate(value: i32) -> (r: Result<Option<bool>, AttribError>)
    ensures
        r == tristate_of(value),
{
    if value == GLX_DONT_CARE {
        Ok(None)
    } else if value == FALSE {
        Ok(Some(false))
    } else if value == TRUE {
        Ok(Some(true))
    } else {
        Err(AttribError::InvalidBool(value))
    }
}

/// One attribute of a list that describes a visual. A truth-valued attribute
/// is true by standing in the list.
#[allow(non_camel_case_types)]
#[derive(Copy, Clone, Debug, PartialEq, Eq, Structural)]
pub enum VisualAttrib {
    GLX_USE_GL(bool),
    GLX_RGBA(bool),
    GLX_STEREO(bool),
    GLX_FBCONFIG_ID(i32),
    GLX_BUFFER_SIZE(i32),
    GLX_LEVEL(i32),
    GLX_DOUBLEBUFFER(bool),
    GLX_AUX_BUFFERS(i32),
    GLX_RED_SIZE(i32),
    GLX_GREEN_SIZE(i32),
    GLX_BLUE_SIZE(i32),
    GLX_ALPHA_SIZE(i32),
    GLX_DEPTH_SIZE(i32),
    GLX_STENCIL_SIZE(i32),
    GLX_ACCUM_RED_SIZE(i32),
    GLX_ACCUM_GREEN_SIZE(i32),
    GLX_ACCUM_BLUE_SIZE(i32),
    GLX_ACCUM_ALPHA_SIZE(i32),
}

impl VisualAttrib {
    /// The number that names the attribute in a list.
    pub open spec fn code(self) -> i32 {
        match self {
            VisualAttrib::GLX_USE_GL(_) => 0x1,
            VisualAttrib::GLX_RGBA(_) => 0x4,
            VisualAttrib::GLX_STEREO(_) => 0x6,
            VisualAttrib::GLX_FBCONFIG_ID(_) => 0x8013,
            VisualAttrib::GLX_BUFFER_SIZE(_) => 0x2,
            VisualAttrib::GLX_LEVEL(_) => 0x3,
            VisualAttrib::GLX_DOUBLEBUFFER(_) => 0x5,
            VisualAttrib::GLX_AUX_BUFFERS(_) => 0x7,
            VisualAttrib::GLX_RED_SIZE(_) => 0x8,
            VisualAttrib::GLX_GREEN_SIZE(_) => 0x9,
            VisualAttrib::GLX_BLUE_SIZE(_) => 0xa,
            VisualAttrib::GLX_ALPHA_SIZE(_) => 0xb,
            VisualAttrib::GLX_DEPTH_SIZE(_) => 0xc,
            VisualAttrib::GLX_STENCIL_SIZE(_) => 0xd,
            VisualAttrib::GLX_ACCUM_RED_SIZE(_) => 0xe,
            VisualAttrib::GLX_ACCUM_GREEN_SIZE(_) => 0xf,
            VisualAttrib::GLX_ACCUM_BLUE_SIZE(_) => 0x10,
            VisualAttrib::GLX_ACCUM_ALPHA_SIZE(_) => 0x11,
        }
    }

    /// The attribute's name.
    pub open spec fn name_spec(self) -> Seq<char> {
        match self {
            VisualAttrib::GLX_USE_GL(_) => "GLX_USE_GL"@,
            VisualAttrib::GLX_RGBA(_) => "GLX_RGBA"@,
            VisualAttrib::GLX_STEREO(_) => "GLX_STEREO"@,
            VisualAttrib::GLX_FBCONFIG_ID(_) => "GLX_FBCONFIG_ID"@,
            VisualAttrib::GLX_BUFFER_SIZE(_) => "GLX_BUFFER_SIZE"@,
            VisualAttrib::GLX_LEVEL(_) => "GLX_LEVEL"@,
            VisualAttrib::GLX_DOUBLEBUFFER(_) => "GLX_DOUBLEBUFFER"@,
            VisualAttrib::GLX_AUX_BUFFERS(_) => "GLX_AUX_BUFFERS"@,
            VisualAttrib::GLX_RED_SIZE(_) => "GLX_RED_SIZE"@,
            VisualAttrib::GLX_GREEN_SIZE(_) => "GLX_GREEN_SIZE"@,
            VisualAttrib::GLX_BLUE_SIZE(_) => "GLX_BLUE_SIZE"@,
            VisualAttrib::GLX_ALPHA_SIZE(_) => "GLX_ALPHA_SIZE"@,
            VisualAttrib::GLX_DEPTH_SIZE(_) => "GLX_DEPTH_SIZE"@,
            VisualAttrib::GLX_STENCIL_SIZE(_) => "GLX_STENCIL_SIZE"@,
            VisualAttrib::GLX_ACCUM_RED_SIZE(_) => "GLX_ACCUM_RED_SIZE"@,
            VisualAttrib::GLX_ACCUM_GREEN_SIZE(_) => "GLX_ACCUM_GREEN_SIZE"@,
            VisualAttrib::GLX_ACCUM_BLUE_SIZE(_) => "GLX_ACCUM_BLUE_SIZE"@,
            VisualAttrib::GLX_ACCUM_ALPHA_SIZE(_) => "GLX_ACCUM_ALPHA_SIZE"@,
        }
    }

    /// The attribute's name.
    pub fn name(&self) -> (name: &'static str)
        ensures
            name@ == self.name_spec(),
    {
        match self {
            VisualAttrib::GLX_USE_GL(_) => "GLX_USE_GL",
            VisualAttrib::GLX_RGBA(_) => "GLX_RGBA",
            VisualAttrib::GLX_STEREO(_) => "GLX_STEREO",
            VisualAttrib::GLX_FBCONFIG_ID(_) => "GLX_FBCONFIG_ID",
            VisualAttrib::GLX_BUFFER_SIZE(_) => "GLX_BUFFER_SIZE",
            VisualAttrib::GLX_LEVEL(_) => "GLX_LEVEL",
            VisualAttrib::GLX_DOUBLEBUFFER(_) => "GLX_DOUBLEBUFFER",
            VisualAttrib::GLX_AUX_BUFFERS(_) => "GLX_AUX_BUFFERS",
            VisualAttrib::GLX_RED_SIZE(_) => "GLX_RED_SIZE",
            VisualAttrib::GLX_GREEN_SIZE(_) => "GLX_GREEN_SIZE",
            VisualAttrib::GLX_BLUE_SIZE(_) => "GLX_BLUE_SIZE",
            VisualAttrib::GLX_ALPHA_SIZE(_) => "GLX_ALPHA_SIZE",
            VisualAttrib::GLX_DEPTH_SIZE(_) => "GLX_DEPTH_SIZE",
            VisualAttrib::GLX_STENCIL_SIZE(_) => "GLX_STENCIL_SIZE",
            VisualAttrib::GLX_ACCUM_RED_SIZE(_) => "GLX_ACCUM_RED_SIZE",
            VisualAttrib::GLX_ACCUM_GREEN_SIZE(_) => "GLX_ACCUM_GREEN_SIZE",
            VisualAttrib::GLX_ACCUM_BLUE_SIZE(_) => "GLX_ACCUM_BLUE_SIZE",
            VisualAttrib::GLX_ACCUM_ALPHA_SIZE(_) => "GLX_ACCUM_ALPHA_SIZE",
        }
    }

    /// Whether a value follows the attribute in a list, for the numbers that
    /// name an attribute.
    pub open spec fn takes_value_spec(attrib: i32) -> Option<bool> {
        if attrib == 0x1 {
            Some(false)
        } else if attrib == 0x4 {
            Some(false)
        } else if attrib == 0x6 {
            Some(false)
        } else if attrib == 0x8013 {
            Some(true)
        } else if attrib == 0x2 {
            Some(true)
        } else if attrib == 0x3 {
            Some(true)
        } else if attrib == 0x5 {
            Some(false)
        } else if attrib == 0x7 {
            Some(true)
        } else if attrib == 0x8 {
            Some(true)
        } else if attrib == 0x9 {
            Some(true)
        } else if attrib == 0xa {
            Some(true)
        } else if attrib == 0xb {
            Some(true)
        } else if attrib == 0xc {
            Some(true)
        } else if attrib == 0xd {
            Some(true)
        } else if attrib == 0xe {
            Some(true)
        } else if attrib == 0xf {
            Some(true)
        } else if attrib == 0x10 {
            Some(true)
        } else if attrib == 0x11 {
            Some(true)
        } else {
            None
        }
    }

    /// Whether a value follows the attribute in a list, or `None` where the
    /// number names no attribute.
    pub fn takes_value(attrib: i32) -> (takes: Option<bool>)
        ensures
            takes == Self::takes_value_spec(attrib),
    {
        match attrib {
            0x1 => Some(false),
            0x4 => Some(false),
            0x6 => Some(false),
            0x8013 => Some(true),
            0x2 => Some(true),
            0x3 => Some(true),
            0x5 => Some(false),
            0x7 => Some(true),
            0x8 => Some(true),
            0x9 => Some(true),
            0xa => Some(true),
            0xb => Some(true),
            0xc => Some(true),
            0xd => Some(true),
            0xe => Some(true),
            0xf => Some(true),
            0x10 => Some(true),
            0x11 => Some(true),
            _ => None,
        }
    }

    /// The attribute that a number and the value after it stand for.
    pub open spec fn parsed(attrib: i32, value: i32) -> Result<Self, AttribError> {
        if attrib == 0x1 {
            Ok(VisualAttrib::GLX_USE_GL(true))
        } else if attrib == 0x4 {
            Ok(VisualAttrib::GLX_RGBA(true))
        } else if attrib == 0x6 {
            Ok(VisualAttrib::GLX_STEREO(true))
        } else if attrib == 0x8013 {
            Ok(VisualAttrib::GLX_FBCONFIG_ID(value))
        } else if attrib == 0x2 {
            Ok(VisualAttrib::GLX_BUFFER_SIZE(value))
        } else if attrib == 0x3 {
            Ok(VisualAttrib::GLX_LEVEL(value))
        } else if attrib == 0x5 {
            Ok(VisualAttrib::GLX_DOUBLEBUFFER(true))
        } else if attrib == 0x7 {
            Ok(VisualAttrib::GLX_AUX_BUFFERS(value))
        } else if attrib == 0x8 {
            Ok(VisualAttrib::GLX_RED_SIZE(value))
        } else if attrib == 0x9 {
            Ok(VisualAttrib::GLX_GREEN_SIZE(value))
        } else if attrib == 0xa {
            Ok(VisualAttrib::GLX_BLUE_SIZE(value))
        } else if attrib == 0xb {
            Ok(VisualAttrib::GLX_ALPHA_SIZE(value))
        } else if attrib == 0xc {
            Ok(VisualAttrib::GLX_DEPTH_SIZE(value))
        } else if attrib == 0xd {
            Ok(VisualAttrib::GLX_STENCIL_SIZE(value))
        } else if attrib == 0xe {
            Ok(VisualAttrib::GLX_ACCUM_RED_SIZE(value))
        } else if attrib == 0xf {
            Ok(VisualAttrib::GLX_ACCUM_GREEN_SIZE(value))
        } else if attrib == 0x10 {
            Ok(VisualAttrib::GLX_ACCUM_BLUE_SIZE(value))
        } else if attrib == 0x11 {
            Ok(VisualAttrib::GLX_ACCUM_ALPHA_SIZE(value))
        } else {
            Err(AttribError::InvalidAttribute(attrib))
        }
    }

    /// Reads one attribute from its number and the value that follows it in
    /// the list. A truth-valued attribute is true by being present and has no
    /// value; `value` is not looked at for it.
    pub fn parse(attrib: i32, value: i32) -> (r: Result<Self, AttribError>)
        ensures
            r == Self::parsed(attrib, value),
            r matches Ok(read) ==> read.code() == attrib,
    {
        match attrib {
            0x1 => Ok(VisualAttrib::GLX_USE_GL(true)),
            0x4 => Ok(VisualAttrib::GLX_RGBA(true)),
            0x6 => Ok(VisualAttrib::GLX_STEREO(true)),
            0x8013 => Ok(VisualAttrib::GLX_FBCONFIG_ID(value)),
            0x2 => Ok(VisualAttrib::GLX_BUFFER_SIZE(value)),
            0x3 => Ok(VisualAttrib::GLX_LEVEL(value)),
            0x5 => Ok(VisualAttrib::GLX_DOUBLEBUFFER(true)),
            0x7 => Ok(VisualAttrib::GLX_AUX_BUFFERS(value)),
            0x8 => Ok(VisualAttrib::GLX_RED_SIZE(value)),
            0x9 => Ok(VisualAttrib::GLX_GREEN_SIZE(value)),
            0xa => Ok(VisualAttrib::GLX_BLUE_SIZE(value)),
            0xb => Ok(VisualAttrib::GLX_ALPHA_SIZE(value)),
            0xc => Ok(VisualAttrib::GLX_DEPTH_SIZE(value)),
            0xd => Ok(VisualAttrib::GLX_STENCIL_SIZE(value)),
            0xe => Ok(VisualAttrib::GLX_ACCUM_RED_SIZE(value)),
            0xf => Ok(VisualAttrib::GLX_ACCUM_GREEN_SIZE(value)),
            0x10 => Ok(VisualAttrib::GLX_ACCUM_BLUE_SIZE(value)),
            0x11 => Ok(VisualAttrib::GLX_ACCUM_ALPHA_SIZE(value)),
            _ => Err(AttribError::InvalidAttribute(attrib)),
        }
    }

    /// The attributes read first put before what the rest of a list comes to.
    pub open spec fn joined(read: Seq<Self>, rest: Result<Seq<Self>, AttribError>) -> Result<
        Seq<Self>,
        AttribError,
    > {
        match rest {
            Ok(attribs) => Ok(read + attribs),
            Err(e) => Err(e),
        }
    }

    /// What a list of numbers stands for: the attributes up to the zero that
    /// ends the list, in order, or the first thing that is wrong with it.
    pub open spec fn parsed_list(list: Seq<i32>) -> Result<Seq<Self>, AttribError>
        decreases list.len(),
    {
        if list.len() == 0 {
            Err(AttribError::Truncated)
        } else if list[0] == 0 {
            Ok(Seq::empty())
        } else {
            match Self::takes_value_spec(list[0]) {
                None => Err(AttribError::InvalidAttribute(list[0])),
                Some(false) => match Self::parsed(list[0], 0) {
                    Ok(first) => Self::joined(seq![first], Self::parsed_list(list.skip(1))),
                    Err(e) => Err(e),
                },
                Some(true) => if list.len() < 2 {
                    Err(AttribError::Truncated)
                } else {
                    match Self::parsed(list[0], list[1]) {
                        Ok(first) => Self::joined(seq![first], Self::parsed_list(list.skip(2))),
                        Err(e) => Err(e),
                    }
                },
            }
        }
    }

    /// Reads a list of attributes up to the zero that ends it. What follows
    /// that zero is not looked at.
    pub fn parse_list(list: &[i32]) -> (r: Result<Vec<Self>, AttribError>)
        ensures
            match r {
                Ok(attribs) => Self::parsed_list(list@) == Ok::<Seq<Self>, AttribError>(attribs@),
                Err(e) => Self::parsed_list(list@) == Err::<Seq<Self>, AttribError>(e),
            },
    {
        let mut attribs: Vec<Self> = Vec::new();
        let mut i: usize = 0;
        proof {
            assert(list@.skip(0) == list@);
            assert(Seq::<Self>::empty() + Seq::<Self>::empty() == Seq::<Self>::empty());
            match Self::parsed_list(list@) {
                Ok(all) => {
                    assert(attribs@ + all == all);
                },
                Err(_) => {},
            }
        }
        while i < list.len()
            invariant
                i <= list.len(),
                Self::parsed_list(list@) == Self::joined(
                    attribs@,
                    Self::parsed_list(list@.skip(i as int)),
                ),
            decreases list.len() - i,
        {
            let ghost rest = list@.skip(i as int);
            let ghost read = attribs@;
            proof {
                assert(rest[0] == list@[i as int]);
                assert(rest.skip(1) == list@.skip(i + 1));
            }
            let attrib = list[i];
            if attrib == 0 {
                proof {
                    assert(read + Seq::<Self>::empty() == read);
                }
                return Ok(attribs);
            }
            let value = match Self::takes_value(attrib) {
                None => {
                    return Err(AttribError::InvalidAttribute(attrib));
                },
                Some(false) => {
                    i += 1;
                    0
                },
                Some(true) => {
                    if list.len() - i < 2 {
                        return Err(AttribError::Truncated);
                    }
                    proof {
                        assert(rest[1] == list@[i + 1]);
                        assert(rest.skip(2) == list@.skip(i + 2));
                    }
                    i += 2;
                    list[i - 1]
                },
            };
            match Self::parse(attrib, value) {
                Ok(first) => {
                    attribs.push(first);
                    proof {
                        match Self::parsed_list(list@.skip(i as int)) {
                            Ok(more) => {
                                assert(read + (seq![first] + more) == read.push(first) + more);
                            },
                            Err(_) => {},
                        }
                    }
                },
                Err(e) => {
                    return Err(e);
                },
            }
        }
        proof {
            assert(list@.skip(i as int).len() == 0);
        }
        Err(AttribError::Truncated)
    }
}

/// The values that a list of visual attributes asks for.
#[allow(non_snake_case)]
#[derive(Copy, Clone, Debug, PartialEq, Eq, Structural)]
pub struct VisualAttribs {
    pub GLX_USE_GL: bool,
    pub GLX_RGBA: bool,
    pub GLX_STEREO: bool,
    pub GLX_FBCONFIG_ID: i32,
    pub GLX_BUFFER_SIZE: i32,
    pub GLX_LEVEL: i32,
    pub GLX_DOUBLEBUFFER: bool,
    pub GLX_AUX_BUFFERS: i32,
    pub GLX_RED_SIZE: i32,
    pub GLX_GREEN_SIZE: i32,
    pub GLX_BLUE_SIZE: i32,
    pub GLX_ALPHA_SIZE: i32,
    pub GLX_DEPTH_SIZE: i32,
    pub GLX_STENCIL_SIZE: i32,
    pub GLX_ACCUM_RED_SIZE: i32,
    pub GLX_ACCUM_GREEN_SIZE: i32,
    pub GLX_ACCUM_BLUE_SIZE: i32,
    pub GLX_ACCUM_ALPHA_SIZE: i32,
}

impl VisualAttribs {
    /// What holds where a list says nothing.
    pub open spec fn defaults() -> VisualAttribs {
        VisualAttribs {
            GLX_USE_GL: true,
            GLX_RGBA: false,
            GLX_STEREO: false,
            GLX_FBCONFIG_ID: GLX_DONT_CARE,
            GLX_BUFFER_SIZE: 0,
            GLX_LEVEL: 0,
            GLX_DOUBLEBUFFER: false,
            GLX_AUX_BUFFERS: 0,
            GLX_RED_SIZE: 0,
            GLX_GREEN_SIZE: 0,
            GLX_BLUE_SIZE: 0,
            GLX_ALPHA_SIZE: 0,
            GLX_DEPTH_SIZE: 0,
            GLX_STENCIL_SIZE: 0,
            GLX_ACCUM_RED_SIZE: 0,
            GLX_ACCUM_GREEN_SIZE: 0,
            GLX_ACCUM_BLUE_SIZE: 0,
            GLX_ACCUM_ALPHA_SIZE: 0,
        }
    }

    /// These values with one attribute set.
    pub open spec fn with(self, attrib: VisualAttrib) -> VisualAttribs {
        match attrib {
            VisualAttrib::GLX_USE_GL(x) => VisualAttribs { GLX_USE_GL: x, ..self },
            VisualAttrib::GLX_RGBA(x) => VisualAttribs { GLX_RGBA: x, ..self },
            VisualAttrib::GLX_STEREO(x) => VisualAttribs { GLX_STEREO: x, ..self },
            VisualAttrib::GLX_FBCONFIG_ID(x) => VisualAttribs { GLX_FBCONFIG_ID: x, ..self },
            VisualAttrib::GLX_BUFFER_SIZE(x) => VisualAttribs { GLX_BUFFER_SIZE: x, ..self },
            VisualAttrib::GLX_LEVEL(x) => VisualAttribs { GLX_LEVEL: x, ..self },
            VisualAttrib::GLX_DOUBLEBUFFER(x) => VisualAttribs { GLX_DOUBLEBUFFER: x, ..self },
            VisualAttrib::GLX_AUX_BUFFERS(x) => VisualAttribs { GLX_AUX_BUFFERS: x, ..self },
            VisualAttrib::GLX_RED_SIZE(x) => VisualAttribs { GLX_RED_SIZE: x, ..self },
            VisualAttrib::GLX_GREEN_SIZE(x) => VisualAttribs { GLX_GREEN_SIZE: x, ..self },
            VisualAttrib::GLX_BLUE_SIZE(x) => VisualAttribs { GLX_BLUE_SIZE: x, ..self },
            VisualAttrib::GLX_ALPHA_SIZE(x) => VisualAttribs { GLX_ALPHA_SIZE: x, ..self },
            VisualAttrib::GLX_DEPTH_SIZE(x) => VisualAttribs { GLX_DEPTH_SIZE: x, ..self },
            VisualAttrib::GLX_STENCIL_SIZE(x) => VisualAttribs { GLX_STENCIL_SIZE: x, ..self },
            VisualAttrib::GLX_ACCUM_RED_SIZE(x) => VisualAttribs { GLX_ACCUM_RED_SIZE: x, ..self },
            VisualAttrib::GLX_ACCUM_GREEN_SIZE(x) => VisualAttribs {
                GLX_ACCUM_GREEN_SIZE: x,
                ..self
            },
            VisualAttrib::GLX_ACCUM_BLUE_SIZE(x) => VisualAttribs {
                GLX_ACCUM_BLUE_SIZE: x,
                ..self
            },
            VisualAttrib::GLX_ACCUM_ALPHA_SIZE(x) => VisualAttribs {
                GLX_ACCUM_ALPHA_SIZE: x,
                ..self
            },
        }
    }

    /// These values with the attributes set one after the other, so that of
    /// two values for one attribute the later stays.
    pub open spec fn with_all(self, attribs: Seq<VisualAttrib>) -> VisualAttribs
        decreases attribs.len(),
    {
        if attribs.len() == 0 {
            self
        } else {
            self.with(attribs[0]).with_all(attribs.skip(1))
        }
    }

    /// Sets one attribute.
    pub fn set(&mut self, attrib: VisualAttrib)
        ensures
            *final(self) == old(self).with(attrib),
    {
        match attrib {
            VisualAttrib::GLX_USE_GL(x) => {
                self.GLX_USE_GL = x;
            },
            VisualAttrib::GLX_RGBA(x) => {
                self.GLX_RGBA = x;
            },
            VisualAttrib::GLX_STEREO(x) => {
                self.GLX_STEREO = x;
            },
            VisualAttrib::GLX_FBCONFIG_ID(x) => {
                self.GLX_FBCONFIG_ID = x;
            },
            VisualAttrib::GLX_BUFFER_SIZE(x) => {
                self.GLX_BUFFER_SIZE = x;
            },
            VisualAttrib::GLX_LEVEL(x) => {
                self.GLX_LEVEL = x;
            },
            VisualAttrib::GLX_DOUBLEBUFFER(x) => {
                self.GLX_DOUBLEBUFFER = x;
            },
            VisualAttrib::GLX_AUX_BUFFERS(x) => {
                self.GLX_AUX_BUFFERS = x;
            },
            VisualAttrib::GLX_RED_SIZE(x) => {
                self.GLX_RED_SIZE = x;
            },
            VisualAttrib::GLX_GREEN_SIZE(x) => {
                self.GLX_GREEN_SIZE = x;
            },
            VisualAttrib::GLX_BLUE_SIZE(x) => {
                self.GLX_BLUE_SIZE = x;
            },
            VisualAttrib::GLX_ALPHA_SIZE(x) => {
                self.GLX_ALPHA_SIZE = x;
            },
            VisualAttrib::GLX_DEPTH_SIZE(x) => {
                self.GLX_DEPTH_SIZE = x;
            },
            VisualAttrib::GLX_STENCIL_SIZE(x) => {
                self.GLX_STENCIL_SIZE = x;
            },
            VisualAttrib::GLX_ACCUM_RED_SIZE(x) => {
                self.GLX_ACCUM_RED_SIZE = x;
            },
            VisualAttrib::GLX_ACCUM_GREEN_SIZE(x) => {
                self.GLX_ACCUM_GREEN_SIZE = x;
            },
            VisualAttrib::GLX_ACCUM_BLUE_SIZE(x) => {
                self.GLX_ACCUM_BLUE_SIZE = x;
            },
            VisualAttrib::GLX_ACCUM_ALPHA_SIZE(x) => {
                self.GLX_ACCUM_ALPHA_SIZE = x;
            },
        }
    }

    /// Sets the attributes one after the other.
    pub fn extend(&mut self, attribs: &[VisualAttrib])
        ensures
            *final(self) == old(self).with_all(attribs@),
    {
        let mut i: usize = 0;
        proof {
            assert(attribs@.skip(0) == attribs@);
        }
        while i < attribs.len()
            invariant
                i <= attribs.len(),
                old(self).with_all(attribs@) == self.with_all(attribs@.skip(i as int)),
            decreases attribs.len() - i,
        {
            proof {
                let rest = attribs@.skip(i as int);
                assert(rest[0] == attribs@[i as int]);
                assert(rest.skip(1) == attribs@.skip(i + 1));
            }
            self.set(attribs[i]);
            i += 1;
        }
        proof {
            assert(attribs@.skip(i as int).len() == 0);
        }
    }

    /// What a list of attributes asks for: the defaults, with the attributes
    /// of the list set one after the other.
    pub fn from_attribs(attribs: &[VisualAttrib]) -> (values: VisualAttribs)
        ensures
            values == VisualAttribs::defaults().with_all(attribs@),
    {
        let mut values = VisualAttribs::default();
        values.extend(attribs);
        values
    }
}

impl Default for VisualAttribs {
    fn default() -> (values: Self)
        ensures
            values == VisualAttribs::defaults(),
    {
        VisualAttribs {
            GLX_USE_GL: true,
            GLX_RGBA: false,
            GLX_STEREO: false,
            GLX_FBCONFIG_ID: GLX_DONT_CARE,
            GLX_BUFFER_SIZE: 0,
            GLX_LEVEL: 0,
            GLX_DOUBLEBUFFER: false,
            GLX_AUX_BUFFERS: 0,
            GLX_RED_SIZE: 0,
            GLX_GREEN_SIZE: 0,
            GLX_BLUE_SIZE: 0,
            GLX_ALPHA_SIZE: 0,
            GLX_DEPTH_SIZE: 0,
            GLX_STENCIL_SIZE: 0,
            GLX_ACCUM_RED_SIZE: 0,
            GLX_ACCUM_GREEN_SIZE: 0,
            GLX_ACCUM_BLUE_SIZE: 0,
            GLX_ACCUM_ALPHA_SIZE: 0,
        }
    }
}

/// One attribute of a list that describes a frame buffer configuration. A
/// truth-valued attribute is true, false or, as `None`, left open.
#[allow(non_camel_case_types)]
#[derive(Copy, Clone, Debug, PartialEq, Eq, Structural)]
pub enum FBConfigAttrib {
    GLX_FBCONFIG_ID(i32),
    GLX_BUFFER_SIZE(i32),
    GLX_LEVEL(i32),
    GLX_DOUBLEBUFFER(Option<bool>),
    GLX_AUX_BUFFERS(i32),
    GLX_RED_SIZE(i32),
    GLX_GREEN_SIZE(i32),
    GLX_BLUE_SIZE(i32),
    GLX_ALPHA_SIZE(i32),
    GLX_DEPTH_SIZE(i32),
    GLX_STENCIL_SIZE(i32),
    GLX_ACCUM_RED_SIZE(i32),
    GLX_ACCUM_GREEN_SIZE(i32),
    GLX_ACCUM_BLUE_SIZE(i32),
    GLX_ACCUM_ALPHA_SIZE(i32),
    GLX_STEREO(Option<bool>),
    GLX_RENDER_TYPE(u32),
    GLX_DRAWABLE_TYPE(u32),
    GLX_X_RENDERABLE(Option<bool>),
    GLX_X_VISUAL_TYPE(i32),
    GLX_CONFIG_CAVEAT(u32),
    GLX_TRANSPARENT_TYPE(u32),
    GLX_TRANSPARENT_INDEX_VALUE(i32),
    GLX_TRANSPARENT_RED_VALUE(i32),
    GLX_TRANSPARENT_GREEN_VALUE(i32),
    GLX_TRANSPARENT_BLUE_VALUE(i32),
    GLX_TRANSPARENT_ALPHA_VALUE(i32),
}

impl FBConfigAttrib {
    /// The number that names the attribute in a list.
    pub open spec fn code(self) -> i32 {
        match self {
            FBConfigAttrib::GLX_FBCONFIG_ID(_) => 0x8013,
            FBConfigAttrib::GLX_BUFFER_SIZE(_) => 0x2,
            FBConfigAttrib::GLX_LEVEL(_) => 0x3,
            FBConfigAttrib::GLX_DOUBLEBUFFER(_) => 0x5,
            FBConfigAttrib::GLX_AUX_BUFFERS(_) => 0x7,
            FBConfigAttrib::GLX_RED_SIZE(_) => 0x8,
            FBConfigAttrib::GLX_GREEN_SIZE(_) => 0x9,
            FBConfigAttrib::GLX_BLUE_SIZE(_) => 0xa,
            FBConfigAttrib::GLX_ALPHA_SIZE(_) => 0xb,
            FBConfigAttrib::GLX_DEPTH_SIZE(_) => 0xc,
            FBConfigAttrib::GLX_STENCIL_SIZE(_) => 0xd,
            FBConfigAttrib::GLX_ACCUM_RED_SIZE(_) => 0xe,
            FBConfigAttrib::GLX_ACCUM_GREEN_SIZE(_) => 0xf,
            FBConfigAttrib::GLX_ACCUM_BLUE_SIZE(_) => 0x10,
            FBConfigAttrib::GLX_ACCUM_ALPHA_SIZE(_) => 0x11,
            FBConfigAttrib::GLX_STEREO(_) => 0x6,
            FBConfigAttrib::GLX_RENDER_TYPE(_) => 0x8011,
            FBConfigAttrib::GLX_DRAWABLE_TYPE(_) => 0x8010,
            FBConfigAttrib::GLX_X_RENDERABLE(_) => 0x8012,
            FBConfigAttrib::GLX_X_VISUAL_TYPE(_) => 0x22,
            FBConfigAttrib::GLX_CONFIG_CAVEAT(_) => 0x20,
            FBConfigAttrib::GLX_TRANSPARENT_TYPE(_) => 0x23,
            FBConfigAttrib::GLX_TRANSPARENT_INDEX_VALUE(_) => 0x24,
            FBConfigAttrib::GLX_TRANSPARENT_RED_VALUE(_) => 0x25,
            FBConfigAttrib::GLX_TRANSPARENT_GREEN_VALUE(_) => 0x26,
            FBConfigAttrib::GLX_TRANSPARENT_BLUE_VALUE(_) => 0x27,
            FBConfigAttrib::GLX_TRANSPARENT_ALPHA_VALUE(_) => 0x28,
        }
    }

    /// The attribute's name.
    pub open spec fn name_spec(self) -> Seq<char> {
        match self {
            FBConfigAttrib::GLX_FBCONFIG_ID(_) => "GLX_FBCONFIG_ID"@,
            FBConfigAttrib::GLX_BUFFER_SIZE(_) => "GLX_BUFFER_SIZE"@,
            FBConfigAttrib::GLX_LEVEL(_) => "GLX_LEVEL"@,
            FBConfigAttrib::GLX_DOUBLEBUFFER(_) => "GLX_DOUBLEBUFFER"@,
            FBConfigAttrib::GLX_AUX_BUFFERS(_) => "GLX_AUX_BUFFERS"@,
            FBConfigAttrib::GLX_RED_SIZE(_) => "GLX_RED_SIZE"@,
            FBConfigAttrib::GLX_GREEN_SIZE(_) => "GLX_GREEN_SIZE"@,
            FBConfigAttrib::GLX_BLUE_SIZE(_) => "GLX_BLUE_SIZE"@,
            FBConfigAttrib::GLX_ALPHA_SIZE(_) => "GLX_ALPHA_SIZE"@,
            FBConfigAttrib::GLX_DEPTH_SIZE(_) => "GLX_DEPTH_SIZE"@,
            FBConfigAttrib::GLX_STENCIL_SIZE(_) => "GLX_STENCIL_SIZE"@,
            FBConfigAttrib::GLX_ACCUM_RED_SIZE(_) => "GLX_ACCUM_RED_SIZE"@,
            FBConfigAttrib::GLX_ACCUM_GREEN_SIZE(_) => "GLX_ACCUM_GREEN_SIZE"@,
            FBConfigAttrib::GLX_ACCUM_BLUE_SIZE(_) => "GLX_ACCUM_BLUE_SIZE"@,
            FBConfigAttrib::GLX_ACCUM_ALPHA_SIZE(_) => "GLX_ACCUM_ALPHA_SIZE"@,
            FBConfigAttrib::GLX_STEREO(_) => "GLX_STEREO"@,
            FBConfigAttrib::GLX_RENDER_TYPE(_) => "GLX_RENDER_TYPE"@,
            FBConfigAttrib::GLX_DRAWABLE_TYPE(_) => "GLX_DRAWABLE_TYPE"@,
            FBConfigAttrib::GLX_X_RENDERABLE(_) => "GLX_X_RENDERABLE"@,
            FBConfigAttrib::GLX_X_VISUAL_TYPE(_) => "GLX_X_VISUAL_TYPE"@,
            FBConfigAttrib::GLX_CONFIG_CAVEAT(_) => "GLX_CONFIG_CAVEAT"@,
            FBConfigAttrib::GLX_TRANSPARENT_TYPE(_) => "GLX_TRANSPARENT_TYPE"@,
            FBConfigAttrib::GLX_TRANSPARENT_INDEX_VALUE(_) => "GLX_TRANSPARENT_INDEX_VALUE"@,
            FBConfigAttrib::GLX_TRANSPARENT_RED_VALUE(_) => "GLX_TRANSPARENT_RED_VALUE"@,
            FBConfigAttrib::GLX_TRANSPARENT_GREEN_VALUE(_) => "GLX_TRANSPARENT_GREEN_VALUE"@,
            FBConfigAttrib::GLX_TRANSPARENT_BLUE_VALUE(_) => "GLX_TRANSPARENT_BLUE_VALUE"@,
            FBConfigAttrib::GLX_TRANSPARENT_ALPHA_VALUE(_) => "GLX_TRANSPARENT_ALPHA_VALUE"@,
        }
    }

    /// The attribute's name.
    pub fn name(&self) -> (name: &'static str)
        ensures
            name@ == self.name_spec(),
    {
        match self {
            FBConfigAttrib::GLX_FBCONFIG_ID(_) => "GLX_FBCONFIG_ID",
            FBConfigAttrib::GLX_BUFFER_SIZE(_) => "GLX_BUFFER_SIZE",
            FBConfigAttrib::GLX_LEVEL(_) => "GLX_LEVEL",
            FBConfigAttrib::GLX_DOUBLEBUFFER(_) => "GLX_DOUBLEBUFFER",
            FBConfigAttrib::GLX_AUX_BUFFERS(_) => "GLX_AUX_BUFFERS",
            FBConfigAttrib::GLX_RED_SIZE(_) => "GLX_RED_SIZE",
            FBConfigAttrib::GLX_GREEN_SIZE(_) => "GLX_GREEN_SIZE",
            FBConfigAttrib::GLX_BLUE_SIZE(_) => "GLX_BLUE_SIZE",
            FBConfigAttrib::GLX_ALPHA_SIZE(_) => "GLX_ALPHA_SIZE",
            FBConfigAttrib::GLX_DEPTH_SIZE(_) => "GLX_DEPTH_SIZE",
            FBConfigAttrib::GLX_STENCIL_SIZE(_) => "GLX_STENCIL_SIZE",
            FBConfigAttrib::GLX_ACCUM_RED_SIZE(_) => "GLX_ACCUM_RED_SIZE",
            FBConfigAttrib::GLX_ACCUM_GREEN_SIZE(_) => "GLX_ACCUM_GREEN_SIZE",
            FBConfigAttrib::GLX_ACCUM_BLUE_SIZE(_) => "GLX_ACCUM_BLUE_SIZE",
            FBConfigAttrib::GLX_ACCUM_ALPHA_SIZE(_) => "GLX_ACCUM_ALPHA_SIZE",
            FBConfigAttrib::GLX_STEREO(_) => "GLX_STEREO",
            FBConfigAttrib::GLX_RENDER_TYPE(_) => "GLX_RENDER_TYPE",
            FBConfigAttrib::GLX_DRAWABLE_TYPE(_) => "GLX_DRAWABLE_TYPE",
            FBConfigAttrib::GLX_X_RENDERABLE(_) => "GLX_X_RENDERABLE",
            FBConfigAttrib::GLX_X_VISUAL_TYPE(_) => "GLX_X_VISUAL_TYPE",
            FBConfigAttrib::GLX_CONFIG_CAVEAT(_) => "GLX_CONFIG_CAVEAT",
            FBConfigAttrib::GLX_TRANSPARENT_TYPE(_) => "GLX_TRANSPARENT_TYPE",
            FBConfigAttrib::GLX_TRANSPARENT_INDEX_VALUE(_) => "GLX_TRANSPARENT_INDEX_VALUE",
            FBConfigAttrib::GLX_TRANSPARENT_RED_VALUE(_) => "GLX_TRANSPARENT_RED_VALUE",
            FBConfigAttrib::GLX_TRANSPARENT_GREEN_VALUE(_) => "GLX_TRANSPARENT_GREEN_VALUE",
            FBConfigAttrib::GLX_TRANSPARENT_BLUE_VALUE(_) => "GLX_TRANSPARENT_BLUE_VALUE",
            FBConfigAttrib::GLX_TRANSPARENT_ALPHA_VALUE(_) => "GLX_TRANSPARENT_ALPHA_VALUE",
        }
    }

    /// Whether a value follows the attribute in a list, for the numbers that
    /// name an attribute.
    pub open spec fn takes_value_spec(attrib: i32) -> Option<bool> {
        if attrib == 0x8013 {
            Some(true)
        } else if attrib == 0x2 {
            Some(true)
        } else if attrib == 0x3 {
            Some(true)
        } else if attrib == 0x5 {
            Some(true)
        } else if attrib == 0x7 {
            Some(true)
        } else if attrib == 0x8 {
            Some(true)
        } else if attrib == 0x9 {
            Some(true)
        } else if attrib == 0xa {
            Some(true)
        } else if attrib == 0xb {
            Some(true)
        } else if attrib == 0xc {
            Some(true)
        } else if attrib == 0xd {
            Some(true)
        } else if attrib == 0xe {
            Some(true)
        } else if attrib == 0xf {
            Some(true)
        } else if attrib == 0x10 {
            Some(true)
        } else if attrib == 0x11 {
            Some(true)
        } else if attrib == 0x6 {
            Some(true)
        } else if attrib == 0x8011 {
            Some(true)
        } else if attrib == 0x8010 {
            Some(true)
        } else if attrib == 0x8012 {
            Some(true)
        } else if attrib == 0x22 {
            Some(true)
        } else if attrib == 0x20 {
            Some(true)
        } else if attrib == 0x23 {
            Some(true)
        } else if attrib == 0x24 {
            Some(true)
        } else if attrib == 0x25 {
            Some(true)
        } else if attrib == 0x26 {
            Some(true)
        } else if attrib == 0x27 {
            Some(true)
        } else if attrib == 0x28 {
            Some(true)
        } else {
            None
        }
    }

    /// Whether a value follows the attribute in a list, or `None` where the
    /// number names no attribute.
    pub fn takes_value(attrib: i32) -> (takes: Option<bool>)
        ensures
            takes == Self::takes_value_spec(attrib),
    {
        match attrib {
            0x8013 => Some(true),
            0x2 => Some(true),
            0x3 => Some(true),
            0x5 => Some(true),
            0x7 => Some(true),
            0x8 => Some(true),
            0x9 => Some(true),
            0xa => Some(true),
            0xb => Some(true),
            0xc => Some(true),
            0xd => Some(true),
            0xe => Some(true),
            0xf => Some(true),
            0x10 => Some(true),
            0x11 => Some(true),
            0x6 => Some(true),
            0x8011 => Some(true),
            0x8010 => Some(true),
            0x8012 => Some(true),
            0x22 => Some(true),
            0x20 => Some(true),
            0x23 => Some(true),
            0x24 => Some(true),
            0x25 => Some(true),
            0x26 => Some(true),
            0x27 => Some(true),
            0x28 => Some(true),
            _ => None,
        }
    }

    /// The attribute that a number and the value after it stand for.
    pub open spec fn parsed(attrib: i32, value: i32) -> Result<Self, AttribError> {
        if attrib == 0x8013 {
            Ok(FBConfigAttrib::GLX_FBCONFIG_ID(value))
        } else if attrib == 0x2 {
            Ok(FBConfigAttrib::GLX_BUFFER_SIZE(value))
        } else if attrib == 0x3 {
            Ok(FBConfigAttrib::GLX_LEVEL(value))
        } else if attrib == 0x5 {
            match tristate_of(value) {
                Ok(b) => Ok(FBConfigAttrib::GLX_DOUBLEBUFFER(b)),
                Err(e) => Err(e),
            }
        } else if attrib == 0x7 {
            Ok(FBConfigAttrib::GLX_AUX_BUFFERS(value))
        } else if attrib == 0x8 {
            Ok(FBConfigAttrib::GLX_RED_SIZE(value))
        } else if attrib == 0x9 {
            Ok(FBConfigAttrib::GLX_GREEN_SIZE(value))
        } else if attrib == 0xa {
            Ok(FBConfigAttrib::GLX_BLUE_SIZE(value))
        } else if attrib == 0xb {
            Ok(FBConfigAttrib::GLX_ALPHA_SIZE(value))
        } else if attrib == 0xc {
            Ok(FBConfigAttrib::GLX_DEPTH_SIZE(value))
        } else if attrib == 0xd {
            Ok(FBConfigAttrib::GLX_STENCIL_SIZE(value))
        } else if attrib == 0xe {
            Ok(FBConfigAttrib::GLX_ACCUM_RED_SIZE(value))
        } else if attrib == 0xf {
            Ok(FBConfigAttrib::GLX_ACCUM_GREEN_SIZE(value))
        } else if attrib == 0x10 {
            Ok(FBConfigAttrib::GLX_ACCUM_BLUE_SIZE(value))
        } else if attrib == 0x11 {
            Ok(FBConfigAttrib::GLX_ACCUM_ALPHA_SIZE(value))
        } else if attrib == 0x6 {
            match tristate_of(value) {
                Ok(b) => Ok(FBConfigAttrib::GLX_STEREO(b)),
                Err(e) => Err(e),
            }
        } else if attrib == 0x8011 {
            Ok(FBConfigAttrib::GLX_RENDER_TYPE(bits_of(value)))
        } else if attrib == 0x8010 {
            Ok(FBConfigAttrib::GLX_DRAWABLE_TYPE(bits_of(value)))
        } else if attrib == 0x8012 {
            match tristate_of(value) {
                Ok(b) => Ok(FBConfigAttrib::GLX_X_RENDERABLE(b)),
                Err(e) => Err(e),
            }
        } else if attrib == 0x22 {
            Ok(FBConfigAttrib::GLX_X_VISUAL_TYPE(value))
        } else if attrib == 0x20 {
            Ok(FBConfigAttrib::GLX_CONFIG_CAVEAT(bits_of(value)))
        } else if attrib == 0x23 {
            Ok(FBConfigAttrib::GLX_TRANSPARENT_TYPE(bits_of(value)))
        } else if attrib == 0x24 {
            Ok(FBConfigAttrib::GLX_TRANSPARENT_INDEX_VALUE(value))
        } else if attrib == 0x25 {
            Ok(FBConfigAttrib::GLX_TRANSPARENT_RED_VALUE(value))
        } else if attrib == 0x26 {
            Ok(FBConfigAttrib::GLX_TRANSPARENT_GREEN_VALUE(value))
        } else if attrib == 0x27 {
            Ok(FBConfigAttrib::GLX_TRANSPARENT_BLUE_VALUE(value))
        } else if attrib == 0x28 {
            Ok(FBConfigAttrib::GLX_TRANSPARENT_ALPHA_VALUE(value))
        } else {
            Err(AttribError::InvalidAttribute(attrib))
        }
    }

    /// Reads one attribute from its number and the value that follows it in
    /// the list.
    pub fn parse(attrib: i32, value: i32) -> (r: Result<Self, AttribError>)
        ensures
            r == Self::parsed(attrib, value),
            r matches Ok(read) ==> read.code() == attrib,
    {
        match attrib {
            0x8013 => Ok(FBConfigAttrib::GLX_FBCONFIG_ID(value)),
            0x2 => Ok(FBConfigAttrib::GLX_BUFFER_SIZE(value)),
            0x3 => Ok(FBConfigAttrib::GLX_LEVEL(value)),
            0x5 => match tristate(value) {
                Ok(b) => Ok(FBConfigAttrib::GLX_DOUBLEBUFFER(b)),
                Err(e) => Err(e),
            },
            0x7 => Ok(FBConfigAttrib::GLX_AUX_BUFFERS(value)),
            0x8 => Ok(FBConfigAttrib::GLX_RED_SIZE(value)),
            0x9 => Ok(FBConfigAttrib::GLX_GREEN_SIZE(value)),
            0xa => Ok(FBConfigAttrib::GLX_BLUE_SIZE(value)),
            0xb => Ok(FBConfigAttrib::GLX_ALPHA_SIZE(value)),
            0xc => Ok(FBConfigAttrib::GLX_DEPTH_SIZE(value)),
            0xd => Ok(FBConfigAttrib::GLX_STENCIL_SIZE(value)),
            0xe => Ok(FBConfigAttrib::GLX_ACCUM_RED_SIZE(value)),
            0xf => Ok(FBConfigAttrib::GLX_ACCUM_GREEN_SIZE(value)),
            0x10 => Ok(FBConfigAttrib::GLX_ACCUM_BLUE_SIZE(value)),
            0x11 => Ok(FBConfigAttrib::GLX_ACCUM_ALPHA_SIZE(value)),
            0x6 => match tristate(value) {
                Ok(b) => Ok(FBConfigAttrib::GLX_STEREO(b)),
                Err(e) => Err(e),
            },
            0x8011 => Ok(FBConfigAttrib::GLX_RENDER_TYPE(to_bits(value))),
            0x8010 => Ok(FBConfigAttrib::GLX_DRAWABLE_TYPE(to_bits(value))),
            0x8012 => match tristate(value) {
                Ok(b) => Ok(FBConfigAttrib::GLX_X_RENDERABLE(b)),
                Err(e) => Err(e),
            },
            0x22 => Ok(FBConfigAttrib::GLX_X_VISUAL_TYPE(value)),
            0x20 => Ok(FBConfigAttrib::GLX_CONFIG_CAVEAT(to_bits(value))),
            0x23 => Ok(FBConfigAttrib::GLX_TRANSPARENT_TYPE(to_bits(value))),
            0x24 => Ok(FBConfigAttrib::GLX_TRANSPARENT_INDEX_VALUE(value)),
            0x25 => Ok(FBConfigAttrib::GLX_TRANSPARENT_RED_VALUE(value)),
            0x26 => Ok(FBConfigAttrib::GLX_TRANSPARENT_GREEN_VALUE(value)),
            0x27 => Ok(FBConfigAttrib::GLX_TRANSPARENT_BLUE_VALUE(value)),
            0x28 => Ok(FBConfigAttrib::GLX_TRANSPARENT_ALPHA_VALUE(value)),
            _ => Err(AttribError::InvalidAttribute(attrib)),
        }
    }

    /// The attributes read first put before what the rest of a list comes to.
    pub open spec fn joined(read: Seq<Self>, rest: Result<Seq<Self>, AttribError>) -> Result<
        Seq<Self>,
        AttribError,
    > {
        match rest {
            Ok(attribs) => Ok(read + attribs),
            Err(e) => Err(e),
        }
    }

    /// What a list of numbers stands for: the attributes up to the zero that
    /// ends the list, in order, or the first thing that is wrong with it.
    pub open spec fn parsed_list(list: Seq<i32>) -> Result<Seq<Self>, AttribError>
        decreases list.len(),
    {
        if list.len() == 0 {
            Err(AttribError::Truncated)
        } else if list[0] == 0 {
            Ok(Seq::empty())
        } else {
            match Self::takes_value_spec(list[0]) {
                None => Err(AttribError::InvalidAttribute(list[0])),
                Some(false) => match Self::parsed(list[0], 0) {
                    Ok(first) => Self::joined(seq![first], Self::parsed_list(list.skip(1))),
                    Err(e) => Err(e),
                },
                Some(true) => if list.len() < 2 {
                    Err(AttribError::Truncated)
                } else {
                    match Self::parsed(list[0], list[1]) {
                        Ok(first) => Self::joined(seq![first], Self::parsed_list(list.skip(2))),
                        Err(e) => Err(e),
                    }
                },
            }
        }
    }

    /// Reads a list of attributes up to the zero that ends it. What follows
    /// that zero is not looked at.
    pub fn parse_list(list: &[i32]) -> (r: Result<Vec<Self>, AttribError>)
        ensures
            match r {
                Ok(attribs) => Self::parsed_list(list@) == Ok::<Seq<Self>, AttribError>(attribs@),
                Err(e) => Self::parsed_list(list@) == Err::<Seq<Self>, AttribError>(e),
            },
    {
        let mut attribs: Vec<Self> = Vec::new();
        let mut i: usize = 0;
        proof {
            assert(list@.skip(0) == list@);
            assert(Seq::<Self>::empty() + Seq::<Self>::empty() == Seq::<Self>::empty());
            match Self::parsed_list(list@) {
                Ok(all) => {
                    assert(attribs@ + all == all);
                },
                Err(_) => {},
            }
        }
        while i < list.len()
            invariant
                i <= list.len(),
                Self::parsed_list(list@) == Self::joined(
                    attribs@,
                    Self::parsed_list(list@.skip(i as int)),
                ),
            decreases list.len() - i,
        {
            let ghost rest = list@.skip(i as int);
            let ghost read = attribs@;
            proof {
                assert(rest[0] == list@[i as int]);
                assert(rest.skip(1) == list@.skip(i + 1));
            }
            let attrib = list[i];
            if attrib == 0 {
                proof {
                    assert(read + Seq::<Self>::empty() == read);
                }
                return Ok(attribs);
            }
            let value = match Self::takes_value(attrib) {
                None => {
                    return Err(AttribError::InvalidAttribute(attrib));
                },
                Some(false) => {
                    i += 1;
                    0
                },
                Some(true) => {
                    if list.len() - i < 2 {
                        return Err(AttribError::Truncated);
                    }
                    proof {
                        assert(rest[1] == list@[i + 1]);
                        assert(rest.skip(2) == list@.skip(i + 2));
                    }
                    i += 2;
                    list[i - 1]
                },
            };
            match Self::parse(attrib, value) {
                Ok(first) => {
                    attribs.push(first);
                    proof {
                        match Self::parsed_list(list@.skip(i as int)) {
                            Ok(more) => {
                                assert(read + (seq![first] + more) == read.push(first) + more);
                            },
                            Err(_) => {},
                        }
                    }
                },
                Err(e) => {
                    return Err(e);
                },
            }
        }
        proof {
            assert(list@.skip(i as int).len() == 0);
        }
        Err(AttribError::Truncated)
    }

    /// The value that the one configuration there is has for the attribute,
    /// for the attributes that it answers.
    pub open spec fn config_value_spec(self) -> Option<i32> {
        match self {
            FBConfigAttrib::GLX_FBCONFIG_ID(_) => Some(0),
            FBConfigAttrib::GLX_BUFFER_SIZE(_) => Some(COLOR_DEPTH),
            FBConfigAttrib::GLX_DOUBLEBUFFER(_) => Some(TRUE),
            FBConfigAttrib::GLX_STEREO(_) => Some(FALSE),
            FBConfigAttrib::GLX_AUX_BUFFERS(_) => Some(0),
            FBConfigAttrib::GLX_RED_SIZE(_)
            | FBConfigAttrib::GLX_GREEN_SIZE(_)
            | FBConfigAttrib::GLX_BLUE_SIZE(_)
            | FBConfigAttrib::GLX_ALPHA_SIZE(_) => Some(COLOR_CHANNEL_DEPTH),
            FBConfigAttrib::GLX_DEPTH_SIZE(_) => Some(16),
            FBConfigAttrib::GLX_STENCIL_SIZE(_) => Some(0),
            FBConfigAttrib::GLX_ACCUM_RED_SIZE(_)
            | FBConfigAttrib::GLX_ACCUM_GREEN_SIZE(_)
            | FBConfigAttrib::GLX_ACCUM_BLUE_SIZE(_)
            | FBConfigAttrib::GLX_ACCUM_ALPHA_SIZE(_) => Some(0),
            FBConfigAttrib::GLX_RENDER_TYPE(_) => Some(GLX_RGBA_BIT),
            FBConfigAttrib::GLX_DRAWABLE_TYPE(_) => Some(GLX_WINDOW_BIT),
            _ => None,
        }
    }

    /// The value that the one configuration there is has for the attribute,
    /// or `None` for an attribute that it does not answer.
    pub fn config_value(&self) -> (value: Option<i32>)
        ensures
            value == self.config_value_spec(),
    {
        match self {
            FBConfigAttrib::GLX_FBCONFIG_ID(_) => Some(0),
            FBConfigAttrib::GLX_BUFFER_SIZE(_) => Some(COLOR_DEPTH),
            FBConfigAttrib::GLX_DOUBLEBUFFER(_) => Some(TRUE),
            FBConfigAttrib::GLX_STEREO(_) => Some(FALSE),
            FBConfigAttrib::GLX_AUX_BUFFERS(_) => Some(0),
            FBConfigAttrib::GLX_RED_SIZE(_)
            | FBConfigAttrib::GLX_GREEN_SIZE(_)
            | FBConfigAttrib::GLX_BLUE_SIZE(_)
            | FBConfigAttrib::GLX_ALPHA_SIZE(_) => Some(COLOR_CHANNEL_DEPTH),
            FBConfigAttrib::GLX_DEPTH_SIZE(_) => Some(16),
            FBConfigAttrib::GLX_STENCIL_SIZE(_) => Some(0),
            FBConfigAttrib::GLX_ACCUM_RED_SIZE(_)
            | FBConfigAttrib::GLX_ACCUM_GREEN_SIZE(_)
            | FBConfigAttrib::GLX_ACCUM_BLUE_SIZE(_)
            | FBConfigAttrib::GLX_ACCUM_ALPHA_SIZE(_) => Some(0),
            FBConfigAttrib::GLX_RENDER_TYPE(_) => Some(GLX_RGBA_BIT),
            FBConfigAttrib::GLX_DRAWABLE_TYPE(_) => Some(GLX_WINDOW_BIT),
            _ => None,
        }
    }
}

/// The values that a list of configuration attributes asks for.
#[allow(non_snake_case)]
#[derive(Copy, Clone, Debug, PartialEq, Eq, Structural)]
pub struct FBConfigAttribs {
    pub GLX_FBCONFIG_ID: i32,
    pub GLX_BUFFER_SIZE: i32,
    pub GLX_LEVEL: i32,
    pub GLX_DOUBLEBUFFER: Option<bool>,
    pub GLX_AUX_BUFFERS: i32,
    pub GLX_RED_SIZE: i32,
    pub GLX_GREEN_SIZE: i32,
    pub GLX_BLUE_SIZE: i32,
    pub GLX_ALPHA_SIZE: i32,
    pub GLX_DEPTH_SIZE: i32,
    pub GLX_STENCIL_SIZE: i32,
    pub GLX_ACCUM_RED_SIZE: i32,
    pub GLX_ACCUM_GREEN_SIZE: i32,
    pub GLX_ACCUM_BLUE_SIZE: i32,
    pub GLX_ACCUM_ALPHA_SIZE: i32,
    pub GLX_STEREO: Option<bool>,
    pub GLX_RENDER_TYPE: u32,
    pub GLX_DRAWABLE_TYPE: u32,
    pub GLX_X_RENDERABLE: Option<bool>,
    pub GLX_X_VISUAL_TYPE: i32,
    pub GLX_CONFIG_CAVEAT: u32,
    pub GLX_TRANSPARENT_TYPE: u32,
    pub GLX_TRANSPARENT_INDEX_VALUE: i32,
    pub GLX_TRANSPARENT_RED_VALUE: i32,
    pub GLX_TRANSPARENT_GREEN_VALUE: i32,
    pub GLX_TRANSPARENT_BLUE_VALUE: i32,
    pub GLX_TRANSPARENT_ALPHA_VALUE: i32,
}

impl FBConfigAttribs {
    /// What holds where a list says nothing.
    pub open spec fn defaults() -> FBConfigAttribs {
        FBConfigAttribs {
            GLX_FBCONFIG_ID: GLX_DONT_CARE,
            GLX_BUFFER_SIZE: 0,
            GLX_LEVEL: 0,
            GLX_DOUBLEBUFFER: None,
            GLX_AUX_BUFFERS: 0,
            GLX_RED_SIZE: 0,
            GLX_GREEN_SIZE: 0,
            GLX_BLUE_SIZE: 0,
            GLX_ALPHA_SIZE: 0,
            GLX_DEPTH_SIZE: 0,
            GLX_STENCIL_SIZE: 0,
            GLX_ACCUM_RED_SIZE: 0,
            GLX_ACCUM_GREEN_SIZE: 0,
            GLX_ACCUM_BLUE_SIZE: 0,
            GLX_ACCUM_ALPHA_SIZE: 0,
            GLX_STEREO: Some(false),
            GLX_RENDER_TYPE: 0x1,
            GLX_DRAWABLE_TYPE: 0x1,
            GLX_X_RENDERABLE: None,
            GLX_X_VISUAL_TYPE: GLX_DONT_CARE,
            GLX_CONFIG_CAVEAT: 0xffffffff,
            GLX_TRANSPARENT_TYPE: 0x8000,
            GLX_TRANSPARENT_INDEX_VALUE: GLX_DONT_CARE,
            GLX_TRANSPARENT_RED_VALUE: GLX_DONT_CARE,
            GLX_TRANSPARENT_GREEN_VALUE: GLX_DONT_CARE,
            GLX_TRANSPARENT_BLUE_VALUE: GLX_DONT_CARE,
            GLX_TRANSPARENT_ALPHA_VALUE: GLX_DONT_CARE,
        }
    }

    /// These values with one attribute set.
    pub open spec fn with(self, attrib: FBConfigAttrib) -> FBConfigAttribs {
        match attrib {
            FBConfigAttrib::GLX_FBCONFIG_ID(x) => FBConfigAttribs { GLX_FBCONFIG_ID: x, ..self },
            FBConfigAttrib::GLX_BUFFER_SIZE(x) => FBConfigAttribs { GLX_BUFFER_SIZE: x, ..self },
            FBConfigAttrib::GLX_LEVEL(x) => FBConfigAttribs { GLX_LEVEL: x, ..self },
            FBConfigAttrib::GLX_DOUBLEBUFFER(x) => FBConfigAttribs { GLX_DOUBLEBUFFER: x, ..self },
            FBConfigAttrib::GLX_AUX_BUFFERS(x) => FBConfigAttribs { GLX_AUX_BUFFERS: x, ..self },
            FBConfigAttrib::GLX_RED_SIZE(x) => FBConfigAttribs { GLX_RED_SIZE: x, ..self },
            FBConfigAttrib::GLX_GREEN_SIZE(x) => FBConfigAttribs { GLX_GREEN_SIZE: x, ..self },
            FBConfigAttrib::GLX_BLUE_SIZE(x) => FBConfigAttribs { GLX_BLUE_SIZE: x, ..self },
            FBConfigAttrib::GLX_ALPHA_SIZE(x) => FBConfigAttribs { GLX_ALPHA_SIZE: x, ..self },
            FBConfigAttrib::GLX_DEPTH_SIZE(x) => FBConfigAttribs { GLX_DEPTH_SIZE: x, ..self },
            FBConfigAttrib::GLX_STENCIL_SIZE(x) => FBConfigAttribs { GLX_STENCIL_SIZE: x, ..self },
            FBConfigAttrib::GLX_ACCUM_RED_SIZE(x) => FBConfigAttribs {
                GLX_ACCUM_RED_SIZE: x,
                ..self
            },
            FBConfigAttrib::GLX_ACCUM_GREEN_SIZE(x) => FBConfigAttribs {
                GLX_ACCUM_GREEN_SIZE: x,
                ..self
            },
            FBConfigAttrib::GLX_ACCUM_BLUE_SIZE(x) => FBConfigAttribs {
                GLX_ACCUM_BLUE_SIZE: x,
                ..self
            },
            FBConfigAttrib::GLX_ACCUM_ALPHA_SIZE(x) => FBConfigAttribs {
                GLX_ACCUM_ALPHA_SIZE: x,
                ..self
            },
            FBConfigAttrib::GLX_STEREO(x) => FBConfigAttribs { GLX_STEREO: x, ..self },
            FBConfigAttrib::GLX_RENDER_TYPE(x) => FBConfigAttribs { GLX_RENDER_TYPE: x, ..self },
            FBConfigAttrib::GLX_DRAWABLE_TYPE(x) => FBConfigAttribs {
                GLX_DRAWABLE_TYPE: x,
                ..self
            },
            FBConfigAttrib::GLX_X_RENDERABLE(x) => FBConfigAttribs { GLX_X_RENDERABLE: x, ..self },
            FBConfigAttrib::GLX_X_VISUAL_TYPE(x) => FBConfigAttribs {
                GLX_X_VISUAL_TYPE: x,
                ..self
            },
            FBConfigAttrib::GLX_CONFIG_CAVEAT(x) => FBConfigAttribs {
                GLX_CONFIG_CAVEAT: x,
                ..self
            },
            FBConfigAttrib::GLX_TRANSPARENT_TYPE(x) => FBConfigAttribs {
                GLX_TRANSPARENT_TYPE: x,
                ..self
            },
            FBConfigAttrib::GLX_TRANSPARENT_INDEX_VALUE(x) => FBConfigAttribs {
                GLX_TRANSPARENT_INDEX_VALUE: x,
                ..self
            },
            FBConfigAttrib::GLX_TRANSPARENT_RED_VALUE(x) => FBConfigAttribs {
                GLX_TRANSPARENT_RED_VALUE: x,
                ..self
            },
            FBConfigAttrib::GLX_TRANSPARENT_GREEN_VALUE(x) => FBConfigAttribs {
                GLX_TRANSPARENT_GREEN_VALUE: x,
                ..self
            },
            FBConfigAttrib::GLX_TRANSPARENT_BLUE_VALUE(x) => FBConfigAttribs {
                GLX_TRANSPARENT_BLUE_VALUE: x,
                ..self
            },
            FBConfigAttrib::GLX_TRANSPARENT_ALPHA_VALUE(x) => FBConfigAttribs {
                GLX_TRANSPARENT_ALPHA_VALUE: x,
                ..self
            },
        }
    }

    /// These values with the attributes set one after the other, so that of
    /// two values for one attribute the later stays.
    pub open spec fn with_all(self, attribs: Seq<FBConfigAttrib>) -> FBConfigAttribs
        decreases attribs.len(),
    {
        if attribs.len() == 0 {
            self
        } else {
            self.with(attribs[0]).with_all(attribs.skip(1))
        }
    }

    /// Sets one attribute.
    pub fn set(&mut self, attrib: FBConfigAttrib)
        ensures
            *final(self) == old(self).with(attrib),
    {
        match attrib {
            FBConfigAttrib::GLX_FBCONFIG_ID(x) => {
                self.GLX_FBCONFIG_ID = x;
            },
            FBConfigAttrib::GLX_BUFFER_SIZE(x) => {
                self.GLX_BUFFER_SIZE = x;
            },
            FBConfigAttrib::GLX_LEVEL(x) => {
                self.GLX_LEVEL = x;
            },
            FBConfigAttrib::GLX_DOUBLEBUFFER(x) => {
                self.GLX_DOUBLEBUFFER = x;
            },
            FBConfigAttrib::GLX_AUX_BUFFERS(x) => {
                self.GLX_AUX_BUFFERS = x;
            },
            FBConfigAttrib::GLX_RED_SIZE(x) => {
                self.GLX_RED_SIZE = x;
            },
            FBConfigAttrib::GLX_GREEN_SIZE(x) => {
                self.GLX_GREEN_SIZE = x;
            },
            FBConfigAttrib::GLX_BLUE_SIZE(x) => {
                self.GLX_BLUE_SIZE = x;
            },
            FBConfigAttrib::GLX_ALPHA_SIZE(x) => {
                self.GLX_ALPHA_SIZE = x;
            },
            FBConfigAttrib::GLX_DEPTH_SIZE(x) => {
                self.GLX_DEPTH_SIZE = x;
            },
            FBConfigAttrib::GLX_STENCIL_SIZE(x) => {
                self.GLX_STENCIL_SIZE = x;
            },
            FBConfigAttrib::GLX_ACCUM_RED_SIZE(x) => {
                self.GLX_ACCUM_RED_SIZE = x;
            },
            FBConfigAttrib::GLX_ACCUM_GREEN_SIZE(x) => {
                self.GLX_ACCUM_GREEN_SIZE = x;
            },
            FBConfigAttrib::GLX_ACCUM_BLUE_SIZE(x) => {
                self.GLX_ACCUM_BLUE_SIZE = x;
            },
            FBConfigAttrib::GLX_ACCUM_ALPHA_SIZE(x) => {
                self.GLX_ACCUM_ALPHA_SIZE = x;
            },
            FBConfigAttrib::GLX_STEREO(x) => {
                self.GLX_STEREO = x;
            },
            FBConfigAttrib::GLX_RENDER_TYPE(x) => {
                self.GLX_RENDER_TYPE = x;
            },
            FBConfigAttrib::GLX_DRAWABLE_TYPE(x) => {
                self.GLX_DRAWABLE_TYPE = x;
            },
            FBConfigAttrib::GLX_X_RENDERABLE(x) => {
                self.GLX_X_RENDERABLE = x;
            },
            FBConfigAttrib::GLX_X_VISUAL_TYPE(x) => {
                self.GLX_X_VISUAL_TYPE = x;
            },
            FBConfigAttrib::GLX_CONFIG_CAVEAT(x) => {
                self.GLX_CONFIG_CAVEAT = x;
            },
            FBConfigAttrib::GLX_TRANSPARENT_TYPE(x) => {
                self.GLX_TRANSPARENT_TYPE = x;
            },
            FBConfigAttrib::GLX_TRANSPARENT_INDEX_VALUE(x) => {
                self.GLX_TRANSPARENT_INDEX_VALUE = x;
            },
            FBConfigAttrib::GLX_TRANSPARENT_RED_VALUE(x) => {
                self.GLX_TRANSPARENT_RED_VALUE = x;
            },
            FBConfigAttrib::GLX_TRANSPARENT_GREEN_VALUE(x) => {
                self.GLX_TRANSPARENT_GREEN_VALUE = x;
            },
            FBConfigAttrib::GLX_TRANSPARENT_BLUE_VALUE(x) => {
                self.GLX_TRANSPARENT_BLUE_VALUE = x;
            },
            FBConfigAttrib::GLX_TRANSPARENT_ALPHA_VALUE(x) => {
                self.GLX_TRANSPARENT_ALPHA_VALUE = x;
            },
        }
    }

    /// Sets the attributes one after the other.
    pub fn extend(&mut self, attribs: &[FBConfigAttrib])
        ensures
            *final(self) == old(self).with_all(attribs@),
    {
        let mut i: usize = 0;
        proof {
            assert(attribs@.skip(0) == attribs@);
        }
        while i < attribs.len()
            invariant
                i <= attribs.len(),
                old(self).with_all(attribs@) == self.with_all(attribs@.skip(i as int)),
            decreases attribs.len() - i,
        {
            proof {
                let rest = attribs@.skip(i as int);
                assert(rest[0] == attribs@[i as int]);
                assert(rest.skip(1) == attribs@.skip(i + 1));
            }
            self.set(attribs[i]);
            i += 1;
        }
        proof {
            assert(attribs@.skip(i as int).len() == 0);
        }
    }

    /// What a list of attributes asks for: the defaults, with the attributes
    /// of the list set one after the other.
    pub fn from_attribs(attribs: &[FBConfigAttrib]) -> (values: FBConfigAttribs)
        ensures
            values == FBConfigAttribs::defaults().with_all(attribs@),
    {
        let mut values = FBConfigAttribs::default();
        values.extend(attribs);
        values
    }
}

impl Default for FBConfigAttribs {
    fn default() -> (values: Self)
        ensures
            values == FBConfigAttribs::defaults(),
    {
        FBConfigAttribs {
            GLX_FBCONFIG_ID: GLX_DONT_CARE,
            GLX_BUFFER_SIZE: 0,
            GLX_LEVEL: 0,
            GLX_DOUBLEBUFFER: None,
            GLX_AUX_BUFFERS: 0,
            GLX_RED_SIZE: 0,
            GLX_GREEN_SIZE: 0,
            GLX_BLUE_SIZE: 0,
            GLX_ALPHA_SIZE: 0,
            GLX_DEPTH_SIZE: 0,
            GLX_STENCIL_SIZE: 0,
            GLX_ACCUM_RED_SIZE: 0,
            GLX_ACCUM_GREEN_SIZE: 0,
            GLX_ACCUM_BLUE_SIZE: 0,
            GLX_ACCUM_ALPHA_SIZE: 0,
            GLX_STEREO: Some(false),
            GLX_RENDER_TYPE: 0x1,
            GLX_DRAWABLE_TYPE: 0x1,
            GLX_X_RENDERABLE: None,
            GLX_X_VISUAL_TYPE: GLX_DONT_CARE,
            GLX_CONFIG_CAVEAT: 0xffffffff,
            GLX_TRANSPARENT_TYPE: 0x8000,
            GLX_TRANSPARENT_INDEX_VALUE: GLX_DONT_CARE,
            GLX_TRANSPARENT_RED_VALUE: GLX_DONT_CARE,
            GLX_TRANSPARENT_GREEN_VALUE: GLX_DONT_CARE,
            GLX_TRANSPARENT_BLUE_VALUE: GLX_DONT_CARE,
            GLX_TRANSPARENT_ALPHA_VALUE: GLX_DONT_CARE,
        }
    }
}

/// The string that a client or the server answers for one of the three
/// names, without its terminating zero.
pub open spec fn client_string_spec(name: i32) -> Option<Seq<char>> {
    if name == GLX_VENDOR {
        Some("glOOF"@)
    } else if name == GLX_VERSION {
        Some("0.1"@)
    } else if name == GLX_EXTENSIONS {
        Some(""@)
    } else {
        None
    }
}

/// The string that the client library answers for `name`: its vendor, its
/// version as major and minor number, or its extensions, of which it has
/// none; `None` for any other name.
#[allow(non_snake_case)]
pub fn glXGetClientString(name: i32) -> (string: Option<&'static str>)
    ensures
        match string {
            Some(s) => client_string_spec(name) == Some(s@),
            None => client_string_spec(name) is None,
        },
{
    if name == GLX_VENDOR {
        Some("glOOF")
    } else if name == GLX_VERSION {
        Some("0.1")
    } else if name == GLX_EXTENSIONS {
        Some("")
    } else {
        None
    }
}

/// Whether the server answers for this screen: there is the one screen 0.
pub fn is_screen(screen: i32) -> (ok: bool)
    ensures
        ok == (screen == 0),
{
    screen == 0
}

/// The string that the server answers for `name` on the one screen there
/// is: the same as the client library.
#[allow(non_snake_case)]
pub fn glXQueryServerString(screen: i32, name: i32) -> (string: Option<&'static str>)
    requires
        screen == 0,
    ensures
        match string {
            Some(s) => client_string_spec(name) == Some(s@),
            None => client_string_spec(name) is None,
        },
{
    glXGetClientString(name)
}

/// What the one configuration there is answers for the attribute that a
/// number names: its value, `Ok(None)` for an attribute that it does not
/// answer, or an error for a number that names no attribute.
#[allow(non_snake_case)]
pub fn glXGetFBConfigAttrib(attribute: i32) -> (r: Result<Option<i32>, AttribError>)
    ensures
        r == (match FBConfigAttrib::parsed(attribute, 0) {
            Ok(attrib) => Ok::<Option<i32>, AttribError>(attrib.config_value_spec()),
            Err(e) => Err::<Option<i32>, AttribError>(e),
        }),
{
    match FBConfigAttrib::parse(attribute, 0) {
        Ok(attrib) => Ok(attrib.config_value()),
        Err(e) => Err(e),
    }
}

} // verus!
