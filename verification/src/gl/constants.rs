use vstd::prelude::*;

verus! {

/// A symbolic constant of the API, as clients pass it in a 32-bit argument.
///
/// Every variant stands for exactly one number, given by [`Enum::code`]; no
/// two variants share a number.
#[allow(non_camel_case_types)]
#[derive(Copy, Clone, Debug, PartialEq, Eq, Structural)]
pub enum Enum {
    POINTS,
    LINES,
    LINE_LOOP,
    LINE_STRIP,
    TRIANGLES,
    TRIANGLE_STRIP,
    TRIANGLE_FAN,
    QUADS,
    QUAD_STRIP,
    POLYGON,
    ACCUM,
    LOAD,
    RETURN,
    MULT,
    ADD,
    NEVER,
    LESS,
    EQUAL,
    LEQUAL,
    GREATER,
    NOTEQUAL,
    GEQUAL,
    ALWAYS,
    SRC_COLOR,
    ONE_MINUS_SRC_COLOR,
    SRC_ALPHA,
    ONE_MINUS_SRC_ALPHA,
    DST_ALPHA,
    ONE_MINUS_DST_ALPHA,
    DST_COLOR,
    ONE_MINUS_DST_COLOR,
    SRC_ALPHA_SATURATE,
    FRONT_LEFT,
    FRONT_RIGHT,
    BACK_LEFT,
    BACK_RIGHT,
    FRONT,
    BACK,
    LEFT,
    RIGHT,
    FRONT_AND_BACK,
    AUX0,
    AUX1,
    AUX2,
    AUX3,
    INVALID_ENUM,
    INVALID_VALUE,
    INVALID_OPERATION,
    STACK_OVERFLOW,
    STACK_UNDERFLOW,
    OUT_OF_MEMORY,
    _2D,
    _3D,
    _3D_COLOR,
    _3D_COLOR_TEXTURE,
    _4D_COLOR_TEXTURE,
    PASS_THROUGH_TOKEN,
    POINT_TOKEN,
    LINE_TOKEN,
    POLYGON_TOKEN,
    BITMAP_TOKEN,
    DRAW_PIXEL_TOKEN,
    COPY_PIXEL_TOKEN,
    LINE_RESET_TOKEN,
    EXP,
    EXP2,
    CW,
    CCW,
    COEFF,
    ORDER,
    DOMAIN,
    CURRENT_COLOR,
    CURRENT_INDEX,
    CURRENT_NORMAL,
    CURRENT_TEXTURE_COORDS,
    CURRENT_RASTER_COLOR,
    CURRENT_RASTER_INDEX,
    CURRENT_RASTER_TEXTURE_COORDS,
    CURRENT_RASTER_POSITION,
    CURRENT_RASTER_POSITION_VALID,
    CURRENT_RASTER_DISTANCE,
    POINT_SMOOTH,
    POINT_SIZE,
    POINT_SIZE_RANGE,
    POINT_SIZE_GRANULARITY,
    LINE_SMOOTH,
    LINE_WIDTH,
    LINE_WIDTH_RANGE,
    LINE_WIDTH_GRANULARITY,
    LINE_STIPPLE,
    LINE_STIPPLE_PATTERN,
    LINE_STIPPLE_REPEAT,
    LIST_MODE,
    MAX_LIST_NESTING,
    LIST_BASE,
    LIST_INDEX,
    POLYGON_MODE,
    POLYGON_SMOOTH,
    POLYGON_STIPPLE,
    EDGE_FLAG,
    CULL_FACE,
    CULL_FACE_MODE,
    FRONT_FACE,
    LIGHTING,
    LIGHT_MODEL_LOCAL_VIEWER,
    LIGHT_MODEL_TWO_SIDE,
    LIGHT_MODEL_AMBIENT,
    SHADE_MODEL,
    COLOR_MATERIAL_FACE,
    COLOR_MATERIAL_PARAMETER,
    COLOR_MATERIAL,
    FOG,
    FOG_INDEX,
    FOG_DENSITY,
    FOG_START,
    FOG_END,
    FOG_MODE,
    FOG_COLOR,
    DEPTH_RANGE,
    DEPTH_TEST,
    DEPTH_WRITEMASK,
    DEPTH_CLEAR_VALUE,
    DEPTH_FUNC,
    ACCUM_CLEAR_VALUE,
    STENCIL_TEST,
    STENCIL_CLEAR_VALUE,
    STENCIL_FUNC,
    STENCIL_VALUE_MASK,
    STENCIL_FAIL,
    STENCIL_PASS_DEPTH_FAIL,
    STENCIL_PASS_DEPTH_PASS,
    STENCIL_REF,
    STENCIL_WRITEMASK,
    MATRIX_MODE,
    NORMALIZE,
    VIEWPORT,
    MODELVIEW_STACK_DEPTH,
    PROJECTION_STACK_DEPTH,
    TEXTURE_STACK_DEPTH,
    MODELVIEW_MATRIX,
    PROJECTION_MATRIX,
    TEXTURE_MATRIX,
    ATTRIB_STACK_DEPTH,
    ALPHA_TEST,
    ALPHA_TEST_FUNC,
    ALPHA_TEST_REF,
    DITHER,
    BLEND_DST,
    BLEND_SRC,
    BLEND,
    LOGIC_OP_MODE,
    LOGIC_OP,
    AUX_BUFFERS,
    DRAW_BUFFER,
    READ_BUFFER,
    SCISSOR_BOX,
    SCISSOR_TEST,
    INDEX_CLEAR_VALUE,
    INDEX_WRITEMASK,
    COLOR_CLEAR_VALUE,
    COLOR_WRITEMASK,
    INDEX_MODE,
    RGBA_MODE,
    DOUBLEBUFFER,
    STEREO,
    RENDER_MODE,
    PERSPECTIVE_CORRECTION_HINT,
    POINT_SMOOTH_HINT,
    LINE_SMOOTH_HINT,
    POLYGON_SMOOTH_HINT,
    FOG_HINT,
    TEXTURE_GEN_S,
    TEXTURE_GEN_T,
    TEXTURE_GEN_R,
    TEXTURE_GEN_Q,
    PIXEL_MAP_I_TO_I,
    PIXEL_MAP_S_TO_S,
    PIXEL_MAP_I_TO_R,
    PIXEL_MAP_I_TO_G,
    PIXEL_MAP_I_TO_B,
    PIXEL_MAP_I_TO_A,
    PIXEL_MAP_R_TO_R,
    PIXEL_MAP_G_TO_G,
    PIXEL_MAP_B_TO_B,
    PIXEL_MAP_A_TO_A,
    PIXEL_MAP_I_TO_I_SIZE,
    PIXEL_MAP_S_TO_S_SIZE,
    PIXEL_MAP_I_TO_R_SIZE,
    PIXEL_MAP_I_TO_G_SIZE,
    PIXEL_MAP_I_TO_B_SIZE,
    PIXEL_MAP_I_TO_A_SIZE,
    PIXEL_MAP_R_TO_R_SIZE,
    PIXEL_MAP_G_TO_G_SIZE,
    PIXEL_MAP_B_TO_B_SIZE,
    PIXEL_MAP_A_TO_A_SIZE,
    UNPACK_SWAP_BYTES,
    UNPACK_LSB_FIRST,
    UNPACK_ROW_LENGTH,
    UNPACK_SKIP_ROWS,
    UNPACK_SKIP_PIXELS,
    UNPACK_ALIGNMENT,
    PACK_SWAP_BYTES,
    PACK_LSB_FIRST,
    PACK_ROW_LENGTH,
    PACK_SKIP_ROWS,
    PACK_SKIP_PIXELS,
    PACK_ALIGNMENT,
    MAP_COLOR,
    MAP_STENCIL,
    INDEX_SHIFT,
    INDEX_OFFSET,
    RED_SCALE,
    RED_BIAS,
    ZOOM_X,
    ZOOM_Y,
    GREEN_SCALE,
    GREEN_BIAS,
    BLUE_SCALE,
    BLUE_BIAS,
    ALPHA_SCALE,
    ALPHA_BIAS,
    DEPTH_SCALE,
    DEPTH_BIAS,
    MAX_EVAL_ORDER,
    MAX_LIGHTS,
    MAX_CLIP_PLANES,
    MAX_TEXTURE_SIZE,
    MAX_PIXEL_MAP_TABLE,
    MAX_ATTRIB_STACK_DEPTH,
    MAX_MODELVIEW_STACK_DEPTH,
    MAX_NAME_STACK_DEPTH,
    MAX_PROJECTION_STACK_DEPTH,
    MAX_TEXTURE_STACK_DEPTH,
    MAX_VIEWPORT_DIMS,
    SUBPIXEL_BITS,
    INDEX_BITS,
    RED_BITS,
    GREEN_BITS,
    BLUE_BITS,
    ALPHA_BITS,
    DEPTH_BITS,
    STENCIL_BITS,
    ACCUM_RED_BITS,
    ACCUM_GREEN_BITS,
    ACCUM_BLUE_BITS,
    ACCUM_ALPHA_BITS,
    NAME_STACK_DEPTH,
    AUTO_NORMAL,
    MAP1_COLOR_4,
    MAP1_INDEX,
    MAP1_NORMAL,
    MAP1_TEXTURE_COORD_1,
    MAP1_TEXTURE_COORD_2,
    MAP1_TEXTURE_COORD_3,
    MAP1_TEXTURE_COORD_4,
    MAP1_VERTEX_3,
    MAP1_VERTEX_4,
    MAP2_COLOR_4,
    MAP2_INDEX,
    MAP2_NORMAL,
    MAP2_TEXTURE_COORD_1,
    MAP2_TEXTURE_COORD_2,
    MAP2_TEXTURE_COORD_3,
    MAP2_TEXTURE_COORD_4,
    MAP2_VERTEX_3,
    MAP2_VERTEX_4,
    MAP1_GRID_DOMAIN,
    MAP1_GRID_SEGMENTS,
    MAP2_GRID_DOMAIN,
    MAP2_GRID_SEGMENTS,
    TEXTURE_1D,
    TEXTURE_2D,
    TEXTURE_WIDTH,
    TEXTURE_HEIGHT,
    TEXTURE_COMPONENTS,
    TEXTURE_BORDER_COLOR,
    TEXTURE_BORDER,
    DONT_CARE,
    FASTEST,
    NICEST,
    AMBIENT,
    DIFFUSE,
    SPECULAR,
    POSITION,
    SPOT_DIRECTION,
    SPOT_EXPONENT,
    SPOT_CUTOFF,
    CONSTANT_ATTENUATION,
    LINEAR_ATTENUATION,
    QUADRATIC_ATTENUATION,
    COMPILE,
    COMPILE_AND_EXECUTE,
    BYTE,
    UNSIGNED_BYTE,
    SHORT,
    UNSIGNED_SHORT,
    INT,
    UNSIGNED_INT,
    FLOAT,
    _2_BYTES,
    _3_BYTES,
    _4_BYTES,
    CLEAR,
    AND,
    AND_REVERSE,
    COPY,
    AND_INVERTED,
    NOOP,
    XOR,
    OR,
    NOR,
    EQUIV,
    INVERT,
    OR_REVERSE,
    COPY_INVERTED,
    OR_INVERTED,
    NAND,
    SET,
    EMISSION,
    SHININESS,
    AMBIENT_AND_DIFFUSE,
    COLOR_INDEXES,
    MODELVIEW,
    PROJECTION,
    TEXTURE,
    COLOR,
    DEPTH,
    STENCIL,
    COLOR_INDEX,
    STENCIL_INDEX,
    DEPTH_COMPONENT,
    RED,
    GREEN,
    BLUE,
    ALPHA,
    RGB,
    RGBA,
    LUMINANCE,
    LUMINANCE_ALPHA,
    BITMAP,
    POINT,
    LINE,
    FILL,
    RENDER,
    FEEDBACK,
    SELECT,
    FLAT,
    SMOOTH,
    KEEP,
    REPLACE,
    INCR,
    DECR,
    VENDOR,
    RENDERER,
    VERSION,
    EXTENSIONS,
    S,
    T,
    R,
    Q,
    MODULATE,
    DECAL,
    TEXTURE_ENV_MODE,
    TEXTURE_ENV_COLOR,
    TEXTURE_ENV,
    EYE_LINEAR,
    OBJECT_LINEAR,
    SPHERE_MAP,
    TEXTURE_GEN_MODE,
    OBJECT_PLANE,
    EYE_PLANE,
    NEAREST,
    LINEAR,
    NEAREST_MIPMAP_NEAREST,
    LINEAR_MIPMAP_NEAREST,
    NEAREST_MIPMAP_LINEAR,
    LINEAR_MIPMAP_LINEAR,
    TEXTURE_MAG_FILTER,
    TEXTURE_MIN_FILTER,
    TEXTURE_WRAP_S,
    TEXTURE_WRAP_T,
    CLAMP,
    REPEAT,
    CLIP_PLANE0,
    CLIP_PLANE1,
    CLIP_PLANE2,
    CLIP_PLANE3,
    CLIP_PLANE4,
    CLIP_PLANE5,
    LIGHT0,
    LIGHT1,
    LIGHT2,
    LIGHT3,
    LIGHT4,
    LIGHT5,
    LIGHT6,
    LIGHT7,
}

/// What recognising `value` may answer: the constant that has this number, or
/// the number itself where no constant has it.
pub open spec fn recognised(value: u32, r: Result<Enum, u32>) -> bool {
    match r {
        Ok(e) => e.code() == value,
        Err(v) => v == value && forall|e: Enum| e.code() != value,
    }
}

impl Enum {
    /// The number that stands for this constant on the wire.
    pub open spec fn code(self) -> u32 {
        match self {
            Enum::POINTS => 0x0000,
            Enum::LINES => 0x0001,
            Enum::LINE_LOOP => 0x0002,
            Enum::LINE_STRIP => 0x0003,
            Enum::TRIANGLES => 0x0004,
            Enum::TRIANGLE_STRIP => 0x0005,
            Enum::TRIANGLE_FAN => 0x0006,
            Enum::QUADS => 0x0007,
            Enum::QUAD_STRIP => 0x0008,
            Enum::POLYGON => 0x0009,
            Enum::ACCUM => 0x0100,
            Enum::LOAD => 0x0101,
            Enum::RETURN => 0x0102,
            Enum::MULT => 0x0103,
            Enum::ADD => 0x0104,
            Enum::NEVER => 0x0200,
            Enum::LESS => 0x0201,
            Enum::EQUAL => 0x0202,
            Enum::LEQUAL => 0x0203,
            Enum::GREATER => 0x0204,
            Enum::NOTEQUAL => 0x0205,
            Enum::GEQUAL => 0x0206,
            Enum::ALWAYS => 0x0207,
            Enum::SRC_COLOR => 0x0300,
            Enum::ONE_MINUS_SRC_COLOR => 0x0301,
            Enum::SRC_ALPHA => 0x0302,
            Enum::ONE_MINUS_SRC_ALPHA => 0x0303,
            Enum::DST_ALPHA => 0x0304,
            Enum::ONE_MINUS_DST_ALPHA => 0x0305,
            Enum::DST_COLOR => 0x0306,
            Enum::ONE_MINUS_DST_COLOR => 0x0307,
            Enum::SRC_ALPHA_SATURATE => 0x0308,
            Enum::FRONT_LEFT => 0x0400,
            Enum::FRONT_RIGHT => 0x0401,
            Enum::BACK_LEFT => 0x0402,
            Enum::BACK_RIGHT => 0x0403,
            Enum::FRONT => 0x0404,
            Enum::BACK => 0x0405,
            Enum::LEFT => 0x0406,
            Enum::RIGHT => 0x0407,
            Enum::FRONT_AND_BACK => 0x0408,
            Enum::AUX0 => 0x0409,
            Enum::AUX1 => 0x040A,
            Enum::AUX2 => 0x040B,
            Enum::AUX3 => 0x040C,
            Enum::INVALID_ENUM => 0x0500,
            Enum::INVALID_VALUE => 0x0501,
            Enum::INVALID_OPERATION => 0x0502,
            Enum::STACK_OVERFLOW => 0x0503,
            Enum::STACK_UNDERFLOW => 0x0504,
            Enum::OUT_OF_MEMORY => 0x0505,
            Enum::_2D => 0x0600,
            Enum::_3D => 0x0601,
            Enum::_3D_COLOR => 0x0602,
            Enum::_3D_COLOR_TEXTURE => 0x0603,
            Enum::_4D_COLOR_TEXTURE => 0x0604,
            Enum::PASS_THROUGH_TOKEN => 0x0700,
            Enum::POINT_TOKEN => 0x0701,
            Enum::LINE_TOKEN => 0x0702,
            Enum::POLYGON_TOKEN => 0x0703,
            Enum::BITMAP_TOKEN => 0x0704,
            Enum::DRAW_PIXEL_TOKEN => 0x0705,
            Enum::COPY_PIXEL_TOKEN => 0x0706,
            Enum::LINE_RESET_TOKEN => 0x0707,
            Enum::EXP => 0x0800,
            Enum::EXP2 => 0x0801,
            Enum::CW => 0x0900,
            Enum::CCW => 0x0901,
            Enum::COEFF => 0x0A00,
            Enum::ORDER => 0x0A01,
            Enum::DOMAIN => 0x0A02,
            Enum::CURRENT_COLOR => 0x0B00,
            Enum::CURRENT_INDEX => 0x0B01,
            Enum::CURRENT_NORMAL => 0x0B02,
            Enum::CURRENT_TEXTURE_COORDS => 0x0B03,
            Enum::CURRENT_RASTER_COLOR => 0x0B04,
            Enum::CURRENT_RASTER_INDEX => 0x0B05,
            Enum::CURRENT_RASTER_TEXTURE_COORDS => 0x0B06,
            Enum::CURRENT_RASTER_POSITION => 0x0B07,
            Enum::CURRENT_RASTER_POSITION_VALID => 0x0B08,
            Enum::CURRENT_RASTER_DISTANCE => 0x0B09,
            Enum::POINT_SMOOTH => 0x0B10,
            Enum::POINT_SIZE => 0x0B11,
            Enum::POINT_SIZE_RANGE => 0x0B12,
            Enum::POINT_SIZE_GRANULARITY => 0x0B13,
            Enum::LINE_SMOOTH => 0x0B20,
            Enum::LINE_WIDTH => 0x0B21,
            Enum::LINE_WIDTH_RANGE => 0x0B22,
            Enum::LINE_WIDTH_GRANULARITY => 0x0B23,
            Enum::LINE_STIPPLE => 0x0B24,
            Enum::LINE_STIPPLE_PATTERN => 0x0B25,
            Enum::LINE_STIPPLE_REPEAT => 0x0B26,
            Enum::LIST_MODE => 0x0B30,
            Enum::MAX_LIST_NESTING => 0x0B31,
            Enum::LIST_BASE => 0x0B32,
            Enum::LIST_INDEX => 0x0B33,
            Enum::POLYGON_MODE => 0x0B40,
            Enum::POLYGON_SMOOTH => 0x0B41,
            Enum::POLYGON_STIPPLE => 0x0B42,
            Enum::EDGE_FLAG => 0x0B43,
            Enum::CULL_FACE => 0x0B44,
            Enum::CULL_FACE_MODE => 0x0B45,
            Enum::FRONT_FACE => 0x0B46,
            Enum::LIGHTING => 0x0B50,
            Enum::LIGHT_MODEL_LOCAL_VIEWER => 0x0B51,
            Enum::LIGHT_MODEL_TWO_SIDE => 0x0B52,
            Enum::LIGHT_MODEL_AMBIENT => 0x0B53,
            Enum::SHADE_MODEL => 0x0B54,
            Enum::COLOR_MATERIAL_FACE => 0x0B55,
            Enum::COLOR_MATERIAL_PARAMETER => 0x0B56,
            Enum::COLOR_MATERIAL => 0x0B57,
            Enum::FOG => 0x0B60,
            Enum::FOG_INDEX => 0x0B61,
            Enum::FOG_DENSITY => 0x0B62,
            Enum::FOG_START => 0x0B63,
            Enum::FOG_END => 0x0B64,
            Enum::FOG_MODE => 0x0B65,
            Enum::FOG_COLOR => 0x0B66,
            Enum::DEPTH_RANGE => 0x0B70,
            Enum::DEPTH_TEST => 0x0B71,
            Enum::DEPTH_WRITEMASK => 0x0B72,
            Enum::DEPTH_CLEAR_VALUE => 0x0B73,
            Enum::DEPTH_FUNC => 0x0B74,
            Enum::ACCUM_CLEAR_VALUE => 0x0B80,
            Enum::STENCIL_TEST => 0x0B90,
            Enum::STENCIL_CLEAR_VALUE => 0x0B91,
            Enum::STENCIL_FUNC => 0x0B92,
            Enum::STENCIL_VALUE_MASK => 0x0B93,
            Enum::STENCIL_FAIL => 0x0B94,
            Enum::STENCIL_PASS_DEPTH_FAIL => 0x0B95,
            Enum::STENCIL_PASS_DEPTH_PASS => 0x0B96,
            Enum::STENCIL_REF => 0x0B97,
            Enum::STENCIL_WRITEMASK => 0x0B98,
            Enum::MATRIX_MODE => 0x0BA0,
            Enum::NORMALIZE => 0x0BA1,
            Enum::VIEWPORT => 0x0BA2,
            Enum::MODELVIEW_STACK_DEPTH => 0x0BA3,
            Enum::PROJECTION_STACK_DEPTH => 0x0BA4,
            Enum::TEXTURE_STACK_DEPTH => 0x0BA5,
            Enum::MODELVIEW_MATRIX => 0x0BA6,
            Enum::PROJECTION_MATRIX => 0x0BA7,
            Enum::TEXTURE_MATRIX => 0x0BA8,
            Enum::ATTRIB_STACK_DEPTH => 0x0BB0,
            Enum::ALPHA_TEST => 0x0BC0,
            Enum::ALPHA_TEST_FUNC => 0x0BC1,
            Enum::ALPHA_TEST_REF => 0x0BC2,
            Enum::DITHER => 0x0BD0,
            Enum::BLEND_DST => 0x0BE0,
            Enum::BLEND_SRC => 0x0BE1,
            Enum::BLEND => 0x0BE2,
            Enum::LOGIC_OP_MODE => 0x0BF0,
            Enum::LOGIC_OP => 0x0BF1,
            Enum::AUX_BUFFERS => 0x0C00,
            Enum::DRAW_BUFFER => 0x0C01,
            Enum::READ_BUFFER => 0x0C02,
            Enum::SCISSOR_BOX => 0x0C10,
            Enum::SCISSOR_TEST => 0x0C11,
            Enum::INDEX_CLEAR_VALUE => 0x0C20,
            Enum::INDEX_WRITEMASK => 0x0C21,
            Enum::COLOR_CLEAR_VALUE => 0x0C22,
            Enum::COLOR_WRITEMASK => 0x0C23,
            Enum::INDEX_MODE => 0x0C30,
            Enum::RGBA_MODE => 0x0C31,
            Enum::DOUBLEBUFFER => 0x0C32,
            Enum::STEREO => 0x0C33,
            Enum::RENDER_MODE => 0x0C40,
            Enum::PERSPECTIVE_CORRECTION_HINT => 0x0C50,
            Enum::POINT_SMOOTH_HINT => 0x0C51,
            Enum::LINE_SMOOTH_HINT => 0x0C52,
            Enum::POLYGON_SMOOTH_HINT => 0x0C53,
            Enum::FOG_HINT => 0x0C54,
            Enum::TEXTURE_GEN_S => 0x0C60,
            Enum::TEXTURE_GEN_T => 0x0C61,
            Enum::TEXTURE_GEN_R => 0x0C62,
            Enum::TEXTURE_GEN_Q => 0x0C63,
            Enum::PIXEL_MAP_I_TO_I => 0x0C70,
            Enum::PIXEL_MAP_S_TO_S => 0x0C71,
            Enum::PIXEL_MAP_I_TO_R => 0x0C72,
            Enum::PIXEL_MAP_I_TO_G => 0x0C73,
            Enum::PIXEL_MAP_I_TO_B => 0x0C74,
            Enum::PIXEL_MAP_I_TO_A => 0x0C75,
            Enum::PIXEL_MAP_R_TO_R => 0x0C76,
            Enum::PIXEL_MAP_G_TO_G => 0x0C77,
            Enum::PIXEL_MAP_B_TO_B => 0x0C78,
            Enum::PIXEL_MAP_A_TO_A => 0x0C79,
            Enum::PIXEL_MAP_I_TO_I_SIZE => 0x0CB0,
            Enum::PIXEL_MAP_S_TO_S_SIZE => 0x0CB1,
            Enum::PIXEL_MAP_I_TO_R_SIZE => 0x0CB2,
            Enum::PIXEL_MAP_I_TO_G_SIZE => 0x0CB3,
            Enum::PIXEL_MAP_I_TO_B_SIZE => 0x0CB4,
            Enum::PIXEL_MAP_I_TO_A_SIZE => 0x0CB5,
            Enum::PIXEL_MAP_R_TO_R_SIZE => 0x0CB6,
            Enum::PIXEL_MAP_G_TO_G_SIZE => 0x0CB7,
            Enum::PIXEL_MAP_B_TO_B_SIZE => 0x0CB8,
            Enum::PIXEL_MAP_A_TO_A_SIZE => 0x0CB9,
            Enum::UNPACK_SWAP_BYTES => 0x0CF0,
            Enum::UNPACK_LSB_FIRST => 0x0CF1,
            Enum::UNPACK_ROW_LENGTH => 0x0CF2,
            Enum::UNPACK_SKIP_ROWS => 0x0CF3,
            Enum::UNPACK_SKIP_PIXELS => 0x0CF4,
            Enum::UNPACK_ALIGNMENT => 0x0CF5,
            Enum::PACK_SWAP_BYTES => 0x0D00,
            Enum::PACK_LSB_FIRST => 0x0D01,
            Enum::PACK_ROW_LENGTH => 0x0D02,
            Enum::PACK_SKIP_ROWS => 0x0D03,
            Enum::PACK_SKIP_PIXELS => 0x0D04,
            Enum::PACK_ALIGNMENT => 0x0D05,
            Enum::MAP_COLOR => 0x0D10,
            Enum::MAP_STENCIL => 0x0D11,
            Enum::INDEX_SHIFT => 0x0D12,
            Enum::INDEX_OFFSET => 0x0D13,
            Enum::RED_SCALE => 0x0D14,
            Enum::RED_BIAS => 0x0D15,
            Enum::ZOOM_X => 0x0D16,
            Enum::ZOOM_Y => 0x0D17,
            Enum::GREEN_SCALE => 0x0D18,
            Enum::GREEN_BIAS => 0x0D19,
            Enum::BLUE_SCALE => 0x0D1A,
            Enum::BLUE_BIAS => 0x0D1B,
            Enum::ALPHA_SCALE => 0x0D1C,
            Enum::ALPHA_BIAS => 0x0D1D,
            Enum::DEPTH_SCALE => 0x0D1E,
            Enum::DEPTH_BIAS => 0x0D1F,
            Enum::MAX_EVAL_ORDER => 0x0D30,
            Enum::MAX_LIGHTS => 0x0D31,
            Enum::MAX_CLIP_PLANES => 0x0D32,
            Enum::MAX_TEXTURE_SIZE => 0x0D33,
            Enum::MAX_PIXEL_MAP_TABLE => 0x0D34,
            Enum::MAX_ATTRIB_STACK_DEPTH => 0x0D35,
            Enum::MAX_MODELVIEW_STACK_DEPTH => 0x0D36,
            Enum::MAX_NAME_STACK_DEPTH => 0x0D37,
            Enum::MAX_PROJECTION_STACK_DEPTH => 0x0D38,
            Enum::MAX_TEXTURE_STACK_DEPTH => 0x0D39,
            Enum::MAX_VIEWPORT_DIMS => 0x0D3A,
            Enum::SUBPIXEL_BITS => 0x0D50,
            Enum::INDEX_BITS => 0x0D51,
            Enum::RED_BITS => 0x0D52,
            Enum::GREEN_BITS => 0x0D53,
            Enum::BLUE_BITS => 0x0D54,
            Enum::ALPHA_BITS => 0x0D55,
            Enum::DEPTH_BITS => 0x0D56,
            Enum::STENCIL_BITS => 0x0D57,
            Enum::ACCUM_RED_BITS => 0x0D58,
            Enum::ACCUM_GREEN_BITS => 0x0D59,
            Enum::ACCUM_BLUE_BITS => 0x0D5A,
            Enum::ACCUM_ALPHA_BITS => 0x0D5B,
            Enum::NAME_STACK_DEPTH => 0x0D70,
            Enum::AUTO_NORMAL => 0x0D80,
            Enum::MAP1_COLOR_4 => 0x0D90,
            Enum::MAP1_INDEX => 0x0D91,
            Enum::MAP1_NORMAL => 0x0D92,
            Enum::MAP1_TEXTURE_COORD_1 => 0x0D93,
            Enum::MAP1_TEXTURE_COORD_2 => 0x0D94,
            Enum::MAP1_TEXTURE_COORD_3 => 0x0D95,
            Enum::MAP1_TEXTURE_COORD_4 => 0x0D96,
            Enum::MAP1_VERTEX_3 => 0x0D97,
            Enum::MAP1_VERTEX_4 => 0x0D98,
            Enum::MAP2_COLOR_4 => 0x0DB0,
            Enum::MAP2_INDEX => 0x0DB1,
            Enum::MAP2_NORMAL => 0x0DB2,
            Enum::MAP2_TEXTURE_COORD_1 => 0x0DB3,
            Enum::MAP2_TEXTURE_COORD_2 => 0x0DB4,
            Enum::MAP2_TEXTURE_COORD_3 => 0x0DB5,
            Enum::MAP2_TEXTURE_COORD_4 => 0x0DB6,
            Enum::MAP2_VERTEX_3 => 0x0DB7,
            Enum::MAP2_VERTEX_4 => 0x0DB8,
            Enum::MAP1_GRID_DOMAIN => 0x0DD0,
            Enum::MAP1_GRID_SEGMENTS => 0x0DD1,
            Enum::MAP2_GRID_DOMAIN => 0x0DD2,
            Enum::MAP2_GRID_SEGMENTS => 0x0DD3,
            Enum::TEXTURE_1D => 0x0DE0,
            Enum::TEXTURE_2D => 0x0DE1,
            Enum::TEXTURE_WIDTH => 0x1000,
            Enum::TEXTURE_HEIGHT => 0x1001,
            Enum::TEXTURE_COMPONENTS => 0x1003,
            Enum::TEXTURE_BORDER_COLOR => 0x1004,
            Enum::TEXTURE_BORDER => 0x1005,
            Enum::DONT_CARE => 0x1100,
            Enum::FASTEST => 0x1101,
            Enum::NICEST => 0x1102,
            Enum::AMBIENT => 0x1200,
            Enum::DIFFUSE => 0x1201,
            Enum::SPECULAR => 0x1202,
            Enum::POSITION => 0x1203,
            Enum::SPOT_DIRECTION => 0x1204,
            Enum::SPOT_EXPONENT => 0x1205,
            Enum::SPOT_CUTOFF => 0x1206,
            Enum::CONSTANT_ATTENUATION => 0x1207,
            Enum::LINEAR_ATTENUATION => 0x1208,
            Enum::QUADRATIC_ATTENUATION => 0x1209,
            Enum::COMPILE => 0x1300,
            Enum::COMPILE_AND_EXECUTE => 0x1301,
            Enum::BYTE => 0x1400,
            Enum::UNSIGNED_BYTE => 0x1401,
            Enum::SHORT => 0x1402,
            Enum::UNSIGNED_SHORT => 0x1403,
            Enum::INT => 0x1404,
            Enum::UNSIGNED_INT => 0x1405,
            Enum::FLOAT => 0x1406,
            Enum::_2_BYTES => 0x1407,
            Enum::_3_BYTES => 0x1408,
            Enum::_4_BYTES => 0x1409,
            Enum::CLEAR => 0x1500,
            Enum::AND => 0x1501,
            Enum::AND_REVERSE => 0x1502,
            Enum::COPY => 0x1503,
            Enum::AND_INVERTED => 0x1504,
            Enum::NOOP => 0x1505,
            Enum::XOR => 0x1506,
            Enum::OR => 0x1507,
            Enum::NOR => 0x1508,
            Enum::EQUIV => 0x1509,
            Enum::INVERT => 0x150A,
            Enum::OR_REVERSE => 0x150B,
            Enum::COPY_INVERTED => 0x150C,
            Enum::OR_INVERTED => 0x150D,
            Enum::NAND => 0x150E,
            Enum::SET => 0x150F,
            Enum::EMISSION => 0x1600,
            Enum::SHININESS => 0x1601,
            Enum::AMBIENT_AND_DIFFUSE => 0x1602,
            Enum::COLOR_INDEXES => 0x1603,
            Enum::MODELVIEW => 0x1700,
            Enum::PROJECTION => 0x1701,
            Enum::TEXTURE => 0x1702,
            Enum::COLOR => 0x1800,
            Enum::DEPTH => 0x1801,
            Enum::STENCIL => 0x1802,
            Enum::COLOR_INDEX => 0x1900,
            Enum::STENCIL_INDEX => 0x1901,
            Enum::DEPTH_COMPONENT => 0x1902,
            Enum::RED => 0x1903,
            Enum::GREEN => 0x1904,
            Enum::BLUE => 0x1905,
            Enum::ALPHA => 0x1906,
            Enum::RGB => 0x1907,
            Enum::RGBA => 0x1908,
            Enum::LUMINANCE => 0x1909,
            Enum::LUMINANCE_ALPHA => 0x190A,
            Enum::BITMAP => 0x1A00,
            Enum::POINT => 0x1B00,
            Enum::LINE => 0x1B01,
            Enum::FILL => 0x1B02,
            Enum::RENDER => 0x1C00,
            Enum::FEEDBACK => 0x1C01,
            Enum::SELECT => 0x1C02,
            Enum::FLAT => 0x1D00,
            Enum::SMOOTH => 0x1D01,
            Enum::KEEP => 0x1E00,
            Enum::REPLACE => 0x1E01,
            Enum::INCR => 0x1E02,
            Enum::DECR => 0x1E03,
            Enum::VENDOR => 0x1F00,
            Enum::RENDERER => 0x1F01,
            Enum::VERSION => 0x1F02,
            Enum::EXTENSIONS => 0x1F03,
            Enum::S => 0x2000,
            Enum::T => 0x2001,
            Enum::R => 0x2002,
            Enum::Q => 0x2003,
            Enum::MODULATE => 0x2100,
            Enum::DECAL => 0x2101,
            Enum::TEXTURE_ENV_MODE => 0x2200,
            Enum::TEXTURE_ENV_COLOR => 0x2201,
            Enum::TEXTURE_ENV => 0x2300,
            Enum::EYE_LINEAR => 0x2400,
            Enum::OBJECT_LINEAR => 0x2401,
            Enum::SPHERE_MAP => 0x2402,
            Enum::TEXTURE_GEN_MODE => 0x2500,
            Enum::OBJECT_PLANE => 0x2501,
            Enum::EYE_PLANE => 0x2502,
            Enum::NEAREST => 0x2600,
            Enum::LINEAR => 0x2601,
            Enum::NEAREST_MIPMAP_NEAREST => 0x2700,
            Enum::LINEAR_MIPMAP_NEAREST => 0x2701,
            Enum::NEAREST_MIPMAP_LINEAR => 0x2702,
            Enum::LINEAR_MIPMAP_LINEAR => 0x2703,
            Enum::TEXTURE_MAG_FILTER => 0x2800,
            Enum::TEXTURE_MIN_FILTER => 0x2801,
            Enum::TEXTURE_WRAP_S => 0x2802,
            Enum::TEXTURE_WRAP_T => 0x2803,
            Enum::CLAMP => 0x2900,
            Enum::REPEAT => 0x2901,
            Enum::CLIP_PLANE0 => 0x3000,
            Enum::CLIP_PLANE1 => 0x3001,
            Enum::CLIP_PLANE2 => 0x3002,
            Enum::CLIP_PLANE3 => 0x3003,
            Enum::CLIP_PLANE4 => 0x3004,
            Enum::CLIP_PLANE5 => 0x3005,
            Enum::LIGHT0 => 0x4000,
            Enum::LIGHT1 => 0x4001,
            Enum::LIGHT2 => 0x4002,
            Enum::LIGHT3 => 0x4003,
            Enum::LIGHT4 => 0x4004,
            Enum::LIGHT5 => 0x4005,
            Enum::LIGHT6 => 0x4006,
            Enum::LIGHT7 => 0x4007,
        }
    }

    /// A number that differs from every number in the table belongs to no
    /// constant.
    proof fn lemma_absent(value: u32)
        requires
            value != 0x0000,
            value != 0x0001,
            value != 0x0002,
            value != 0x0003,
            value != 0x0004,
            value != 0x0005,
            value != 0x0006,
            value != 0x0007,
            value != 0x0008,
            value != 0x0009,
            value != 0x0100,
            value != 0x0101,
            value != 0x0102,
            value != 0x0103,
            value != 0x0104,
            value != 0x0200,
            value != 0x0201,
            value != 0x0202,
            value != 0x0203,
            value != 0x0204,
            value != 0x0205,
            value != 0x0206,
            value != 0x0207,
            value != 0x0300,
            value != 0x0301,
            value != 0x0302,
            value != 0x0303,
            value != 0x0304,
            value != 0x0305,
            value != 0x0306,
            value != 0x0307,
            value != 0x0308,
            value != 0x0400,
            value != 0x0401,
            value != 0x0402,
            value != 0x0403,
            value != 0x0404,
            value != 0x0405,
            value != 0x0406,
            value != 0x0407,
            value != 0x0408,
            value != 0x0409,
            value != 0x040A,
            value != 0x040B,
            value != 0x040C,
            value != 0x0500,
            value != 0x0501,
            value != 0x0502,
            value != 0x0503,
            value != 0x0504,
            value != 0x0505,
            value != 0x0600,
            value != 0x0601,
            value != 0x0602,
            value != 0x0603,
            value != 0x0604,
            value != 0x0700,
            value != 0x0701,
            value != 0x0702,
            value != 0x0703,
            value != 0x0704,
            value != 0x0705,
            value != 0x0706,
            value != 0x0707,
            value != 0x0800,
            value != 0x0801,
            value != 0x0900,
            value != 0x0901,
            value != 0x0A00,
            value != 0x0A01,
            value != 0x0A02,
            value != 0x0B00,
            value != 0x0B01,
            value != 0x0B02,
            value != 0x0B03,
            value != 0x0B04,
            value != 0x0B05,
            value != 0x0B06,
            value != 0x0B07,
            value != 0x0B08,
            value != 0x0B09,
            value != 0x0B10,
            value != 0x0B11,
            value != 0x0B12,
            value != 0x0B13,
            value != 0x0B20,
            value != 0x0B21,
            value != 0x0B22,
            value != 0x0B23,
            value != 0x0B24,
            value != 0x0B25,
            value != 0x0B26,
            value != 0x0B30,
            value != 0x0B31,
            value != 0x0B32,
            value != 0x0B33,
            value != 0x0B40,
            value != 0x0B41,
            value != 0x0B42,
            value != 0x0B43,
            value != 0x0B44,
            value != 0x0B45,
            value != 0x0B46,
            value != 0x0B50,
            value != 0x0B51,
            value != 0x0B52,
            value != 0x0B53,
            value != 0x0B54,
            value != 0x0B55,
            value != 0x0B56,
            value != 0x0B57,
            value != 0x0B60,
            value != 0x0B61,
            value != 0x0B62,
            value != 0x0B63,
            value != 0x0B64,
            value != 0x0B65,
            value != 0x0B66,
            value != 0x0B70,
            value != 0x0B71,
            value != 0x0B72,
            value != 0x0B73,
            value != 0x0B74,
            value != 0x0B80,
            value != 0x0B90,
            value != 0x0B91,
            value != 0x0B92,
            value != 0x0B93,
            value != 0x0B94,
            value != 0x0B95,
            value != 0x0B96,
            value != 0x0B97,
            value != 0x0B98,
            value != 0x0BA0,
            value != 0x0BA1,
            value != 0x0BA2,
            value != 0x0BA3,
            value != 0x0BA4,
            value != 0x0BA5,
            value != 0x0BA6,
            value != 0x0BA7,
            value != 0x0BA8,
            value != 0x0BB0,
            value != 0x0BC0,
            value != 0x0BC1,
            value != 0x0BC2,
            value != 0x0BD0,
            value != 0x0BE0,
            value != 0x0BE1,
            value != 0x0BE2,
            value != 0x0BF0,
            value != 0x0BF1,
            value != 0x0C00,
            value != 0x0C01,
            value != 0x0C02,
            value != 0x0C10,
            value != 0x0C11,
            value != 0x0C20,
            value != 0x0C21,
            value != 0x0C22,
            value != 0x0C23,
            value != 0x0C30,
            value != 0x0C31,
            value != 0x0C32,
            value != 0x0C33,
            value != 0x0C40,
            value != 0x0C50,
            value != 0x0C51,
            value != 0x0C52,
            value != 0x0C53,
            value != 0x0C54,
            value != 0x0C60,
            value != 0x0C61,
            value != 0x0C62,
            value != 0x0C63,
            value != 0x0C70,
            value != 0x0C71,
            value != 0x0C72,
            value != 0x0C73,
            value != 0x0C74,
            value != 0x0C75,
            value != 0x0C76,
            value != 0x0C77,
            value != 0x0C78,
            value != 0x0C79,
            value != 0x0CB0,
            value != 0x0CB1,
            value != 0x0CB2,
            value != 0x0CB3,
            value != 0x0CB4,
            value != 0x0CB5,
            value != 0x0CB6,
            value != 0x0CB7,
            value != 0x0CB8,
            value != 0x0CB9,
            value != 0x0CF0,
            value != 0x0CF1,
            value != 0x0CF2,
            value != 0x0CF3,
            value != 0x0CF4,
            value != 0x0CF5,
            value != 0x0D00,
            value != 0x0D01,
            value != 0x0D02,
            value != 0x0D03,
            value != 0x0D04,
            value != 0x0D05,
            value != 0x0D10,
            value != 0x0D11,
            value != 0x0D12,
            value != 0x0D13,
            value != 0x0D14,
            value != 0x0D15,
            value != 0x0D16,
            value != 0x0D17,
            value != 0x0D18,
            value != 0x0D19,
            value != 0x0D1A,
            value != 0x0D1B,
            value != 0x0D1C,
            value != 0x0D1D,
            value != 0x0D1E,
            value != 0x0D1F,
            value != 0x0D30,
            value != 0x0D31,
            value != 0x0D32,
            value != 0x0D33,
            value != 0x0D34,
            value != 0x0D35,
            value != 0x0D36,
            value != 0x0D37,
            value != 0x0D38,
            value != 0x0D39,
            value != 0x0D3A,
            value != 0x0D50,
            value != 0x0D51,
            value != 0x0D52,
            value != 0x0D53,
            value != 0x0D54,
            value != 0x0D55,
            value != 0x0D56,
            value != 0x0D57,
            value != 0x0D58,
            value != 0x0D59,
            value != 0x0D5A,
            value != 0x0D5B,
            value != 0x0D70,
            value != 0x0D80,
            value != 0x0D90,
            value != 0x0D91,
            value != 0x0D92,
            value != 0x0D93,
            value != 0x0D94,
            value != 0x0D95,
            value != 0x0D96,
            value != 0x0D97,
            value != 0x0D98,
            value != 0x0DB0,
            value != 0x0DB1,
            value != 0x0DB2,
            value != 0x0DB3,
            value != 0x0DB4,
            value != 0x0DB5,
            value != 0x0DB6,
            value != 0x0DB7,
            value != 0x0DB8,
            value != 0x0DD0,
            value != 0x0DD1,
            value != 0x0DD2,
            value != 0x0DD3,
            value != 0x0DE0,
            value != 0x0DE1,
            value != 0x1000,
            value != 0x1001,
            value != 0x1003,
            value != 0x1004,
            value != 0x1005,
            value != 0x1100,
            value != 0x1101,
            value != 0x1102,
            value != 0x1200,
            value != 0x1201,
            value != 0x1202,
            value != 0x1203,
            value != 0x1204,
            value != 0x1205,
            value != 0x1206,
            value != 0x1207,
            value != 0x1208,
            value != 0x1209,
            value != 0x1300,
            value != 0x1301,
            value != 0x1400,
            value != 0x1401,
            value != 0x1402,
            value != 0x1403,
            value != 0x1404,
            value != 0x1405,
            value != 0x1406,
            value != 0x1407,
            value != 0x1408,
            value != 0x1409,
            value != 0x1500,
            value != 0x1501,
            value != 0x1502,
            value != 0x1503,
            value != 0x1504,
            value != 0x1505,
            value != 0x1506,
            value != 0x1507,
            value != 0x1508,
            value != 0x1509,
            value != 0x150A,
            value != 0x150B,
            value != 0x150C,
            value != 0x150D,
            value != 0x150E,
            value != 0x150F,
            value != 0x1600,
            value != 0x1601,
            value != 0x1602,
            value != 0x1603,
            value != 0x1700,
            value != 0x1701,
            value != 0x1702,
            value != 0x1800,
            value != 0x1801,
            value != 0x1802,
            value != 0x1900,
            value != 0x1901,
            value != 0x1902,
            value != 0x1903,
            value != 0x1904,
            value != 0x1905,
            value != 0x1906,
            value != 0x1907,
            value != 0x1908,
            value != 0x1909,
            value != 0x190A,
            value != 0x1A00,
            value != 0x1B00,
            value != 0x1B01,
            value != 0x1B02,
            value != 0x1C00,
            value != 0x1C01,
            value != 0x1C02,
            value != 0x1D00,
            value != 0x1D01,
            value != 0x1E00,
            value != 0x1E01,
            value != 0x1E02,
            value != 0x1E03,
            value != 0x1F00,
            value != 0x1F01,
            value != 0x1F02,
            value != 0x1F03,
            value != 0x2000,
            value != 0x2001,
            value != 0x2002,
            value != 0x2003,
            value != 0x2100,
            value != 0x2101,
            value != 0x2200,
            value != 0x2201,
            value != 0x2300,
            value != 0x2400,
            value != 0x2401,
            value != 0x2402,
            value != 0x2500,
            value != 0x2501,
            value != 0x2502,
            value != 0x2600,
            value != 0x2601,
            value != 0x2700,
            value != 0x2701,
            value != 0x2702,
            value != 0x2703,
            value != 0x2800,
            value != 0x2801,
            value != 0x2802,
            value != 0x2803,
            value != 0x2900,
            value != 0x2901,
            value != 0x3000,
            value != 0x3001,
            value != 0x3002,
            value != 0x3003,
            value != 0x3004,
            value != 0x3005,
            value != 0x4000,
            value != 0x4001,
            value != 0x4002,
            value != 0x4003,
            value != 0x4004,
            value != 0x4005,
            value != 0x4006,
            value != 0x4007,
        ensures
            forall|e: Enum| e.code() != value,
    {
    }

    /// The number that stands for this constant.
    pub fn to_u32(self) -> (value: u32)
        ensures
            value == self.code(),
    {
        match self {
            Enum::POINTS => 0x0000,
            Enum::LINES => 0x0001,
            Enum::LINE_LOOP => 0x0002,
            Enum::LINE_STRIP => 0x0003,
            Enum::TRIANGLES => 0x0004,
            Enum::TRIANGLE_STRIP => 0x0005,
            Enum::TRIANGLE_FAN => 0x0006,
            Enum::QUADS => 0x0007,
            Enum::QUAD_STRIP => 0x0008,
            Enum::POLYGON => 0x0009,
            Enum::ACCUM => 0x0100,
            Enum::LOAD => 0x0101,
            Enum::RETURN => 0x0102,
            Enum::MULT => 0x0103,
            Enum::ADD => 0x0104,
            Enum::NEVER => 0x0200,
            Enum::LESS => 0x0201,
            Enum::EQUAL => 0x0202,
            Enum::LEQUAL => 0x0203,
            Enum::GREATER => 0x0204,
            Enum::NOTEQUAL => 0x0205,
            Enum::GEQUAL => 0x0206,
            Enum::ALWAYS => 0x0207,
            Enum::SRC_COLOR => 0x0300,
            Enum::ONE_MINUS_SRC_COLOR => 0x0301,
            Enum::SRC_ALPHA => 0x0302,
            Enum::ONE_MINUS_SRC_ALPHA => 0x0303,
            Enum::DST_ALPHA => 0x0304,
            Enum::ONE_MINUS_DST_ALPHA => 0x0305,
            Enum::DST_COLOR => 0x0306,
            Enum::ONE_MINUS_DST_COLOR => 0x0307,
            Enum::SRC_ALPHA_SATURATE => 0x0308,
            Enum::FRONT_LEFT => 0x0400,
            Enum::FRONT_RIGHT => 0x0401,
            Enum::BACK_LEFT => 0x0402,
            Enum::BACK_RIGHT => 0x0403,
            Enum::FRONT => 0x0404,
            Enum::BACK => 0x0405,
            Enum::LEFT => 0x0406,
            Enum::RIGHT => 0x0407,
            Enum::FRONT_AND_BACK => 0x0408,
            Enum::AUX0 => 0x0409,
            Enum::AUX1 => 0x040A,
            Enum::AUX2 => 0x040B,
            Enum::AUX3 => 0x040C,
            Enum::INVALID_ENUM => 0x0500,
            Enum::INVALID_VALUE => 0x0501,
            Enum::INVALID_OPERATION => 0x0502,
            Enum::STACK_OVERFLOW => 0x0503,
            Enum::STACK_UNDERFLOW => 0x0504,
            Enum::OUT_OF_MEMORY => 0x0505,
            Enum::_2D => 0x0600,
            Enum::_3D => 0x0601,
            Enum::_3D_COLOR => 0x0602,
            Enum::_3D_COLOR_TEXTURE => 0x0603,
            Enum::_4D_COLOR_TEXTURE => 0x0604,
            Enum::PASS_THROUGH_TOKEN => 0x0700,
            Enum::POINT_TOKEN => 0x0701,
            Enum::LINE_TOKEN => 0x0702,
            Enum::POLYGON_TOKEN => 0x0703,
            Enum::BITMAP_TOKEN => 0x0704,
            Enum::DRAW_PIXEL_TOKEN => 0x0705,
            Enum::COPY_PIXEL_TOKEN => 0x0706,
            Enum::LINE_RESET_TOKEN => 0x0707,
            Enum::EXP => 0x0800,
            Enum::EXP2 => 0x0801,
            Enum::CW => 0x0900,
            Enum::CCW => 0x0901,
            Enum::COEFF => 0x0A00,
            Enum::ORDER => 0x0A01,
            Enum::DOMAIN => 0x0A02,
            Enum::CURRENT_COLOR => 0x0B00,
            Enum::CURRENT_INDEX => 0x0B01,
            Enum::CURRENT_NORMAL => 0x0B02,
            Enum::CURRENT_TEXTURE_COORDS => 0x0B03,
            Enum::CURRENT_RASTER_COLOR => 0x0B04,
            Enum::CURRENT_RASTER_INDEX => 0x0B05,
            Enum::CURRENT_RASTER_TEXTURE_COORDS => 0x0B06,
            Enum::CURRENT_RASTER_POSITION => 0x0B07,
            Enum::CURRENT_RASTER_POSITION_VALID => 0x0B08,
            Enum::CURRENT_RASTER_DISTANCE => 0x0B09,
            Enum::POINT_SMOOTH => 0x0B10,
            Enum::POINT_SIZE => 0x0B11,
            Enum::POINT_SIZE_RANGE => 0x0B12,
            Enum::POINT_SIZE_GRANULARITY => 0x0B13,
            Enum::LINE_SMOOTH => 0x0B20,
            Enum::LINE_WIDTH => 0x0B21,
            Enum::LINE_WIDTH_RANGE => 0x0B22,
            Enum::LINE_WIDTH_GRANULARITY => 0x0B23,
            Enum::LINE_STIPPLE => 0x0B24,
            Enum::LINE_STIPPLE_PATTERN => 0x0B25,
            Enum::LINE_STIPPLE_REPEAT => 0x0B26,
            Enum::LIST_MODE => 0x0B30,
            Enum::MAX_LIST_NESTING => 0x0B31,
            Enum::LIST_BASE => 0x0B32,
            Enum::LIST_INDEX => 0x0B33,
            Enum::POLYGON_MODE => 0x0B40,
            Enum::POLYGON_SMOOTH => 0x0B41,
            Enum::POLYGON_STIPPLE => 0x0B42,
            Enum::EDGE_FLAG => 0x0B43,
            Enum::CULL_FACE => 0x0B44,
            Enum::CULL_FACE_MODE => 0x0B45,
            Enum::FRONT_FACE => 0x0B46,
            Enum::LIGHTING => 0x0B50,
            Enum::LIGHT_MODEL_LOCAL_VIEWER => 0x0B51,
            Enum::LIGHT_MODEL_TWO_SIDE => 0x0B52,
            Enum::LIGHT_MODEL_AMBIENT => 0x0B53,
            Enum::SHADE_MODEL => 0x0B54,
            Enum::COLOR_MATERIAL_FACE => 0x0B55,
            Enum::COLOR_MATERIAL_PARAMETER => 0x0B56,
            Enum::COLOR_MATERIAL => 0x0B57,
            Enum::FOG => 0x0B60,
            Enum::FOG_INDEX => 0x0B61,
            Enum::FOG_DENSITY => 0x0B62,
            Enum::FOG_START => 0x0B63,
            Enum::FOG_END => 0x0B64,
            Enum::FOG_MODE => 0x0B65,
            Enum::FOG_COLOR => 0x0B66,
            Enum::DEPTH_RANGE => 0x0B70,
            Enum::DEPTH_TEST => 0x0B71,
            Enum::DEPTH_WRITEMASK => 0x0B72,
            Enum::DEPTH_CLEAR_VALUE => 0x0B73,
            Enum::DEPTH_FUNC => 0x0B74,
            Enum::ACCUM_CLEAR_VALUE => 0x0B80,
            Enum::STENCIL_TEST => 0x0B90,
            Enum::STENCIL_CLEAR_VALUE => 0x0B91,
            Enum::STENCIL_FUNC => 0x0B92,
            Enum::STENCIL_VALUE_MASK => 0x0B93,
            Enum::STENCIL_FAIL => 0x0B94,
            Enum::STENCIL_PASS_DEPTH_FAIL => 0x0B95,
            Enum::STENCIL_PASS_DEPTH_PASS => 0x0B96,
            Enum::STENCIL_REF => 0x0B97,
            Enum::STENCIL_WRITEMASK => 0x0B98,
            Enum::MATRIX_MODE => 0x0BA0,
            Enum::NORMALIZE => 0x0BA1,
            Enum::VIEWPORT => 0x0BA2,
            Enum::MODELVIEW_STACK_DEPTH => 0x0BA3,
            Enum::PROJECTION_STACK_DEPTH => 0x0BA4,
            Enum::TEXTURE_STACK_DEPTH => 0x0BA5,
            Enum::MODELVIEW_MATRIX => 0x0BA6,
            Enum::PROJECTION_MATRIX => 0x0BA7,
            Enum::TEXTURE_MATRIX => 0x0BA8,
            Enum::ATTRIB_STACK_DEPTH => 0x0BB0,
            Enum::ALPHA_TEST => 0x0BC0,
            Enum::ALPHA_TEST_FUNC => 0x0BC1,
            Enum::ALPHA_TEST_REF => 0x0BC2,
            Enum::DITHER => 0x0BD0,
            Enum::BLEND_DST => 0x0BE0,
            Enum::BLEND_SRC => 0x0BE1,
            Enum::BLEND => 0x0BE2,
            Enum::LOGIC_OP_MODE => 0x0BF0,
            Enum::LOGIC_OP => 0x0BF1,
            Enum::AUX_BUFFERS => 0x0C00,
            Enum::DRAW_BUFFER => 0x0C01,
            Enum::READ_BUFFER => 0x0C02,
            Enum::SCISSOR_BOX => 0x0C10,
            Enum::SCISSOR_TEST => 0x0C11,
            Enum::INDEX_CLEAR_VALUE => 0x0C20,
            Enum::INDEX_WRITEMASK => 0x0C21,
            Enum::COLOR_CLEAR_VALUE => 0x0C22,
            Enum::COLOR_WRITEMASK => 0x0C23,
            Enum::INDEX_MODE => 0x0C30,
            Enum::RGBA_MODE => 0x0C31,
            Enum::DOUBLEBUFFER => 0x0C32,
            Enum::STEREO => 0x0C33,
            Enum::RENDER_MODE => 0x0C40,
            Enum::PERSPECTIVE_CORRECTION_HINT => 0x0C50,
            Enum::POINT_SMOOTH_HINT => 0x0C51,
            Enum::LINE_SMOOTH_HINT => 0x0C52,
            Enum::POLYGON_SMOOTH_HINT => 0x0C53,
            Enum::FOG_HINT => 0x0C54,
            Enum::TEXTURE_GEN_S => 0x0C60,
            Enum::TEXTURE_GEN_T => 0x0C61,
            Enum::TEXTURE_GEN_R => 0x0C62,
            Enum::TEXTURE_GEN_Q => 0x0C63,
            Enum::PIXEL_MAP_I_TO_I => 0x0C70,
            Enum::PIXEL_MAP_S_TO_S => 0x0C71,
            Enum::PIXEL_MAP_I_TO_R => 0x0C72,
            Enum::PIXEL_MAP_I_TO_G => 0x0C73,
            Enum::PIXEL_MAP_I_TO_B => 0x0C74,
            Enum::PIXEL_MAP_I_TO_A => 0x0C75,
            Enum::PIXEL_MAP_R_TO_R => 0x0C76,
            Enum::PIXEL_MAP_G_TO_G => 0x0C77,
            Enum::PIXEL_MAP_B_TO_B => 0x0C78,
            Enum::PIXEL_MAP_A_TO_A => 0x0C79,
            Enum::PIXEL_MAP_I_TO_I_SIZE => 0x0CB0,
            Enum::PIXEL_MAP_S_TO_S_SIZE => 0x0CB1,
            Enum::PIXEL_MAP_I_TO_R_SIZE => 0x0CB2,
            Enum::PIXEL_MAP_I_TO_G_SIZE => 0x0CB3,
            Enum::PIXEL_MAP_I_TO_B_SIZE => 0x0CB4,
            Enum::PIXEL_MAP_I_TO_A_SIZE => 0x0CB5,
            Enum::PIXEL_MAP_R_TO_R_SIZE => 0x0CB6,
            Enum::PIXEL_MAP_G_TO_G_SIZE => 0x0CB7,
            Enum::PIXEL_MAP_B_TO_B_SIZE => 0x0CB8,
            Enum::PIXEL_MAP_A_TO_A_SIZE => 0x0CB9,
            Enum::UNPACK_SWAP_BYTES => 0x0CF0,
            Enum::UNPACK_LSB_FIRST => 0x0CF1,
            Enum::UNPACK_ROW_LENGTH => 0x0CF2,
            Enum::UNPACK_SKIP_ROWS => 0x0CF3,
            Enum::UNPACK_SKIP_PIXELS => 0x0CF4,
            Enum::UNPACK_ALIGNMENT => 0x0CF5,
            Enum::PACK_SWAP_BYTES => 0x0D00,
            Enum::PACK_LSB_FIRST => 0x0D01,
            Enum::PACK_ROW_LENGTH => 0x0D02,
            Enum::PACK_SKIP_ROWS => 0x0D03,
            Enum::PACK_SKIP_PIXELS => 0x0D04,
            Enum::PACK_ALIGNMENT => 0x0D05,
            Enum::MAP_COLOR => 0x0D10,
            Enum::MAP_STENCIL => 0x0D11,
            Enum::INDEX_SHIFT => 0x0D12,
            Enum::INDEX_OFFSET => 0x0D13,
            Enum::RED_SCALE => 0x0D14,
            Enum::RED_BIAS => 0x0D15,
            Enum::ZOOM_X => 0x0D16,
            Enum::ZOOM_Y => 0x0D17,
            Enum::GREEN_SCALE => 0x0D18,
            Enum::GREEN_BIAS => 0x0D19,
            Enum::BLUE_SCALE => 0x0D1A,
            Enum::BLUE_BIAS => 0x0D1B,
            Enum::ALPHA_SCALE => 0x0D1C,
            Enum::ALPHA_BIAS => 0x0D1D,
            Enum::DEPTH_SCALE => 0x0D1E,
            Enum::DEPTH_BIAS => 0x0D1F,
            Enum::MAX_EVAL_ORDER => 0x0D30,
            Enum::MAX_LIGHTS => 0x0D31,
            Enum::MAX_CLIP_PLANES => 0x0D32,
            Enum::MAX_TEXTURE_SIZE => 0x0D33,
            Enum::MAX_PIXEL_MAP_TABLE => 0x0D34,
            Enum::MAX_ATTRIB_STACK_DEPTH => 0x0D35,
            Enum::MAX_MODELVIEW_STACK_DEPTH => 0x0D36,
            Enum::MAX_NAME_STACK_DEPTH => 0x0D37,
            Enum::MAX_PROJECTION_STACK_DEPTH => 0x0D38,
            Enum::MAX_TEXTURE_STACK_DEPTH => 0x0D39,
            Enum::MAX_VIEWPORT_DIMS => 0x0D3A,
            Enum::SUBPIXEL_BITS => 0x0D50,
            Enum::INDEX_BITS => 0x0D51,
            Enum::RED_BITS => 0x0D52,
            Enum::GREEN_BITS => 0x0D53,
            Enum::BLUE_BITS => 0x0D54,
            Enum::ALPHA_BITS => 0x0D55,
            Enum::DEPTH_BITS => 0x0D56,
            Enum::STENCIL_BITS => 0x0D57,
            Enum::ACCUM_RED_BITS => 0x0D58,
            Enum::ACCUM_GREEN_BITS => 0x0D59,
            Enum::ACCUM_BLUE_BITS => 0x0D5A,
            Enum::ACCUM_ALPHA_BITS => 0x0D5B,
            Enum::NAME_STACK_DEPTH => 0x0D70,
            Enum::AUTO_NORMAL => 0x0D80,
            Enum::MAP1_COLOR_4 => 0x0D90,
            Enum::MAP1_INDEX => 0x0D91,
            Enum::MAP1_NORMAL => 0x0D92,
            Enum::MAP1_TEXTURE_COORD_1 => 0x0D93,
            Enum::MAP1_TEXTURE_COORD_2 => 0x0D94,
            Enum::MAP1_TEXTURE_COORD_3 => 0x0D95,
            Enum::MAP1_TEXTURE_COORD_4 => 0x0D96,
            Enum::MAP1_VERTEX_3 => 0x0D97,
            Enum::MAP1_VERTEX_4 => 0x0D98,
            Enum::MAP2_COLOR_4 => 0x0DB0,
            Enum::MAP2_INDEX => 0x0DB1,
            Enum::MAP2_NORMAL => 0x0DB2,
            Enum::MAP2_TEXTURE_COORD_1 => 0x0DB3,
            Enum::MAP2_TEXTURE_COORD_2 => 0x0DB4,
            Enum::MAP2_TEXTURE_COORD_3 => 0x0DB5,
            Enum::MAP2_TEXTURE_COORD_4 => 0x0DB6,
            Enum::MAP2_VERTEX_3 => 0x0DB7,
            Enum::MAP2_VERTEX_4 => 0x0DB8,
            Enum::MAP1_GRID_DOMAIN => 0x0DD0,
            Enum::MAP1_GRID_SEGMENTS => 0x0DD1,
            Enum::MAP2_GRID_DOMAIN => 0x0DD2,
            Enum::MAP2_GRID_SEGMENTS => 0x0DD3,
            Enum::TEXTURE_1D => 0x0DE0,
            Enum::TEXTURE_2D => 0x0DE1,
            Enum::TEXTURE_WIDTH => 0x1000,
            Enum::TEXTURE_HEIGHT => 0x1001,
            Enum::TEXTURE_COMPONENTS => 0x1003,
            Enum::TEXTURE_BORDER_COLOR => 0x1004,
            Enum::TEXTURE_BORDER => 0x1005,
            Enum::DONT_CARE => 0x1100,
            Enum::FASTEST => 0x1101,
            Enum::NICEST => 0x1102,
            Enum::AMBIENT => 0x1200,
            Enum::DIFFUSE => 0x1201,
            Enum::SPECULAR => 0x1202,
            Enum::POSITION => 0x1203,
            Enum::SPOT_DIRECTION => 0x1204,
            Enum::SPOT_EXPONENT => 0x1205,
            Enum::SPOT_CUTOFF => 0x1206,
            Enum::CONSTANT_ATTENUATION => 0x1207,
            Enum::LINEAR_ATTENUATION => 0x1208,
            Enum::QUADRATIC_ATTENUATION => 0x1209,
            Enum::COMPILE => 0x1300,
            Enum::COMPILE_AND_EXECUTE => 0x1301,
            Enum::BYTE => 0x1400,
            Enum::UNSIGNED_BYTE => 0x1401,
            Enum::SHORT => 0x1402,
            Enum::UNSIGNED_SHORT => 0x1403,
            Enum::INT => 0x1404,
            Enum::UNSIGNED_INT => 0x1405,
            Enum::FLOAT => 0x1406,
            Enum::_2_BYTES => 0x1407,
            Enum::_3_BYTES => 0x1408,
            Enum::_4_BYTES => 0x1409,
            Enum::CLEAR => 0x1500,
            Enum::AND => 0x1501,
            Enum::AND_REVERSE => 0x1502,
            Enum::COPY => 0x1503,
            Enum::AND_INVERTED => 0x1504,
            Enum::NOOP => 0x1505,
            Enum::XOR => 0x1506,
            Enum::OR => 0x1507,
            Enum::NOR => 0x1508,
            Enum::EQUIV => 0x1509,
            Enum::INVERT => 0x150A,
            Enum::OR_REVERSE => 0x150B,
            Enum::COPY_INVERTED => 0x150C,
            Enum::OR_INVERTED => 0x150D,
            Enum::NAND => 0x150E,
            Enum::SET => 0x150F,
            Enum::EMISSION => 0x1600,
            Enum::SHININESS => 0x1601,
            Enum::AMBIENT_AND_DIFFUSE => 0x1602,
            Enum::COLOR_INDEXES => 0x1603,
            Enum::MODELVIEW => 0x1700,
            Enum::PROJECTION => 0x1701,
            Enum::TEXTURE => 0x1702,
            Enum::COLOR => 0x1800,
            Enum::DEPTH => 0x1801,
            Enum::STENCIL => 0x1802,
            Enum::COLOR_INDEX => 0x1900,
            Enum::STENCIL_INDEX => 0x1901,
            Enum::DEPTH_COMPONENT => 0x1902,
            Enum::RED => 0x1903,
            Enum::GREEN => 0x1904,
            Enum::BLUE => 0x1905,
            Enum::ALPHA => 0x1906,
            Enum::RGB => 0x1907,
            Enum::RGBA => 0x1908,
            Enum::LUMINANCE => 0x1909,
            Enum::LUMINANCE_ALPHA => 0x190A,
            Enum::BITMAP => 0x1A00,
            Enum::POINT => 0x1B00,
            Enum::LINE => 0x1B01,
            Enum::FILL => 0x1B02,
            Enum::RENDER => 0x1C00,
            Enum::FEEDBACK => 0x1C01,
            Enum::SELECT => 0x1C02,
            Enum::FLAT => 0x1D00,
            Enum::SMOOTH => 0x1D01,
            Enum::KEEP => 0x1E00,
            Enum::REPLACE => 0x1E01,
            Enum::INCR => 0x1E02,
            Enum::DECR => 0x1E03,
            Enum::VENDOR => 0x1F00,
            Enum::RENDERER => 0x1F01,
            Enum::VERSION => 0x1F02,
            Enum::EXTENSIONS => 0x1F03,
            Enum::S => 0x2000,
            Enum::T => 0x2001,
            Enum::R => 0x2002,
            Enum::Q => 0x2003,
            Enum::MODULATE => 0x2100,
            Enum::DECAL => 0x2101,
            Enum::TEXTURE_ENV_MODE => 0x2200,
            Enum::TEXTURE_ENV_COLOR => 0x2201,
            Enum::TEXTURE_ENV => 0x2300,
            Enum::EYE_LINEAR => 0x2400,
            Enum::OBJECT_LINEAR => 0x2401,
            Enum::SPHERE_MAP => 0x2402,
            Enum::TEXTURE_GEN_MODE => 0x2500,
            Enum::OBJECT_PLANE => 0x2501,
            Enum::EYE_PLANE => 0x2502,
            Enum::NEAREST => 0x2600,
            Enum::LINEAR => 0x2601,
            Enum::NEAREST_MIPMAP_NEAREST => 0x2700,
            Enum::LINEAR_MIPMAP_NEAREST => 0x2701,
            Enum::NEAREST_MIPMAP_LINEAR => 0x2702,
            Enum::LINEAR_MIPMAP_LINEAR => 0x2703,
            Enum::TEXTURE_MAG_FILTER => 0x2800,
            Enum::TEXTURE_MIN_FILTER => 0x2801,
            Enum::TEXTURE_WRAP_S => 0x2802,
            Enum::TEXTURE_WRAP_T => 0x2803,
            Enum::CLAMP => 0x2900,
            Enum::REPEAT => 0x2901,
            Enum::CLIP_PLANE0 => 0x3000,
            Enum::CLIP_PLANE1 => 0x3001,
            Enum::CLIP_PLANE2 => 0x3002,
            Enum::CLIP_PLANE3 => 0x3003,
            Enum::CLIP_PLANE4 => 0x3004,
            Enum::CLIP_PLANE5 => 0x3005,
            Enum::LIGHT0 => 0x4000,
            Enum::LIGHT1 => 0x4001,
            Enum::LIGHT2 => 0x4002,
            Enum::LIGHT3 => 0x4003,
            Enum::LIGHT4 => 0x4004,
            Enum::LIGHT5 => 0x4005,
            Enum::LIGHT6 => 0x4006,
            Enum::LIGHT7 => 0x4007,
        }
    }

    /// Searches the part of the table from `POINTS` to `SRC_ALPHA_SATURATE`.
    #[verifier::rlimit(50)]
    fn search_0(value: u32) -> (r: Result<Enum, u32>)
        requires
            value < 0x0400,
        ensures
            recognised(value, r),
    {
        match value {
            0x0000 => Ok(Enum::POINTS),
            0x0001 => Ok(Enum::LINES),
            0x0002 => Ok(Enum::LINE_LOOP),
            0x0003 => Ok(Enum::LINE_STRIP),
            0x0004 => Ok(Enum::TRIANGLES),
            0x0005 => Ok(Enum::TRIANGLE_STRIP),
            0x0006 => Ok(Enum::TRIANGLE_FAN),
            0x0007 => Ok(Enum::QUADS),
            0x0008 => Ok(Enum::QUAD_STRIP),
            0x0009 => Ok(Enum::POLYGON),
            0x0100 => Ok(Enum::ACCUM),
            0x0101 => Ok(Enum::LOAD),
            0x0102 => Ok(Enum::RETURN),
            0x0103 => Ok(Enum::MULT),
            0x0104 => Ok(Enum::ADD),
            0x0200 => Ok(Enum::NEVER),
            0x0201 => Ok(Enum::LESS),
            0x0202 => Ok(Enum::EQUAL),
            0x0203 => Ok(Enum::LEQUAL),
            0x0204 => Ok(Enum::GREATER),
            0x0205 => Ok(Enum::NOTEQUAL),
            0x0206 => Ok(Enum::GEQUAL),
            0x0207 => Ok(Enum::ALWAYS),
            0x0300 => Ok(Enum::SRC_COLOR),
            0x0301 => Ok(Enum::ONE_MINUS_SRC_COLOR),
            0x0302 => Ok(Enum::SRC_ALPHA),
            0x0303 => Ok(Enum::ONE_MINUS_SRC_ALPHA),
            0x0304 => Ok(Enum::DST_ALPHA),
            0x0305 => Ok(Enum::ONE_MINUS_DST_ALPHA),
            0x0306 => Ok(Enum::DST_COLOR),
            0x0307 => Ok(Enum::ONE_MINUS_DST_COLOR),
            0x0308 => Ok(Enum::SRC_ALPHA_SATURATE),
            _ => {
                proof {
                    Enum::lemma_absent(value);
                }
                Err(value)
            },
        }
    }

    /// Searches the part of the table from `FRONT_LEFT` to `LINE_RESET_TOKEN`.
    #[verifier::rlimit(50)]
    fn search_1(value: u32) -> (r: Result<Enum, u32>)
        requires
            0x0400 <= value,
            value < 0x0800,
        ensures
            recognised(value, r),
    {
        match value {
            0x0400 => Ok(Enum::FRONT_LEFT),
            0x0401 => Ok(Enum::FRONT_RIGHT),
            0x0402 => Ok(Enum::BACK_LEFT),
            0x0403 => Ok(Enum::BACK_RIGHT),
            0x0404 => Ok(Enum::FRONT),
            0x0405 => Ok(Enum::BACK),
            0x0406 => Ok(Enum::LEFT),
            0x0407 => Ok(Enum::RIGHT),
            0x0408 => Ok(Enum::FRONT_AND_BACK),
            0x0409 => Ok(Enum::AUX0),
            0x040A => Ok(Enum::AUX1),
            0x040B => Ok(Enum::AUX2),
            0x040C => Ok(Enum::AUX3),
            0x0500 => Ok(Enum::INVALID_ENUM),
            0x0501 => Ok(Enum::INVALID_VALUE),
            0x0502 => Ok(Enum::INVALID_OPERATION),
            0x0503 => Ok(Enum::STACK_OVERFLOW),
            0x0504 => Ok(Enum::STACK_UNDERFLOW),
            0x0505 => Ok(Enum::OUT_OF_MEMORY),
            0x0600 => Ok(Enum::_2D),
            0x0601 => Ok(Enum::_3D),
            0x0602 => Ok(Enum::_3D_COLOR),
            0x0603 => Ok(Enum::_3D_COLOR_TEXTURE),
            0x0604 => Ok(Enum::_4D_COLOR_TEXTURE),
            0x0700 => Ok(Enum::PASS_THROUGH_TOKEN),
            0x0701 => Ok(Enum::POINT_TOKEN),
            0x0702 => Ok(Enum::LINE_TOKEN),
            0x0703 => Ok(Enum::POLYGON_TOKEN),
            0x0704 => Ok(Enum::BITMAP_TOKEN),
            0x0705 => Ok(Enum::DRAW_PIXEL_TOKEN),
            0x0706 => Ok(Enum::COPY_PIXEL_TOKEN),
            0x0707 => Ok(Enum::LINE_RESET_TOKEN),
            _ => {
                proof {
                    Enum::lemma_absent(value);
                }
                Err(value)
            },
        }
    }

    /// Searches the part of the table from `EXP` to `LIST_INDEX`.
    #[verifier::rlimit(50)]
    fn search_2(value: u32) -> (r: Result<Enum, u32>)
        requires
            0x0800 <= value,
            value < 0x0B40,
        ensures
            recognised(value, r),
    {
        match value {
            0x0800 => Ok(Enum::EXP),
            0x0801 => Ok(Enum::EXP2),
            0x0900 => Ok(Enum::CW),
            0x0901 => Ok(Enum::CCW),
            0x0A00 => Ok(Enum::COEFF),
            0x0A01 => Ok(Enum::ORDER),
            0x0A02 => Ok(Enum::DOMAIN),
            0x0B00 => Ok(Enum::CURRENT_COLOR),
            0x0B01 => Ok(Enum::CURRENT_INDEX),
            0x0B02 => Ok(Enum::CURRENT_NORMAL),
            0x0B03 => Ok(Enum::CURRENT_TEXTURE_COORDS),
            0x0B04 => Ok(Enum::CURRENT_RASTER_COLOR),
            0x0B05 => Ok(Enum::CURRENT_RASTER_INDEX),
            0x0B06 => Ok(Enum::CURRENT_RASTER_TEXTURE_COORDS),
            0x0B07 => Ok(Enum::CURRENT_RASTER_POSITION),
            0x0B08 => Ok(Enum::CURRENT_RASTER_POSITION_VALID),
            0x0B09 => Ok(Enum::CURRENT_RASTER_DISTANCE),
            0x0B10 => Ok(Enum::POINT_SMOOTH),
            0x0B11 => Ok(Enum::POINT_SIZE),
            0x0B12 => Ok(Enum::POINT_SIZE_RANGE),
            0x0B13 => Ok(Enum::POINT_SIZE_GRANULARITY),
            0x0B20 => Ok(Enum::LINE_SMOOTH),
            0x0B21 => Ok(Enum::LINE_WIDTH),
            0x0B22 => Ok(Enum::LINE_WIDTH_RANGE),
            0x0B23 => Ok(Enum::LINE_WIDTH_GRANULARITY),
            0x0B24 => Ok(Enum::LINE_STIPPLE),
            0x0B25 => Ok(Enum::LINE_STIPPLE_PATTERN),
            0x0B26 => Ok(Enum::LINE_STIPPLE_REPEAT),
            0x0B30 => Ok(Enum::LIST_MODE),
            0x0B31 => Ok(Enum::MAX_LIST_NESTING),
            0x0B32 => Ok(Enum::LIST_BASE),
            0x0B33 => Ok(Enum::LIST_INDEX),
            _ => {
                proof {
                    Enum::lemma_absent(value);
                }
                Err(value)
            },
        }
    }

    /// Searches the part of the table from `POLYGON_MODE` to `STENCIL_VALUE_MASK`.
    #[verifier::rlimit(50)]
    fn search_3(value: u32) -> (r: Result<Enum, u32>)
        requires
            0x0B40 <= value,
            value < 0x0B94,
        ensures
            recognised(value, r),
    {
        match value {
            0x0B40 => Ok(Enum::POLYGON_MODE),
            0x0B41 => Ok(Enum::POLYGON_SMOOTH),
            0x0B42 => Ok(Enum::POLYGON_STIPPLE),
            0x0B43 => Ok(Enum::EDGE_FLAG),
            0x0B44 => Ok(Enum::CULL_FACE),
            0x0B45 => Ok(Enum::CULL_FACE_MODE),
            0x0B46 => Ok(Enum::FRONT_FACE),
            0x0B50 => Ok(Enum::LIGHTING),
            0x0B51 => Ok(Enum::LIGHT_MODEL_LOCAL_VIEWER),
            0x0B52 => Ok(Enum::LIGHT_MODEL_TWO_SIDE),
            0x0B53 => Ok(Enum::LIGHT_MODEL_AMBIENT),
            0x0B54 => Ok(Enum::SHADE_MODEL),
            0x0B55 => Ok(Enum::COLOR_MATERIAL_FACE),
            0x0B56 => Ok(Enum::COLOR_MATERIAL_PARAMETER),
            0x0B57 => Ok(Enum::COLOR_MATERIAL),
            0x0B60 => Ok(Enum::FOG),
            0x0B61 => Ok(Enum::FOG_INDEX),
            0x0B62 => Ok(Enum::FOG_DENSITY),
            0x0B63 => Ok(Enum::FOG_START),
            0x0B64 => Ok(Enum::FOG_END),
            0x0B65 => Ok(Enum::FOG_MODE),
            0x0B66 => Ok(Enum::FOG_COLOR),
            0x0B70 => Ok(Enum::DEPTH_RANGE),
            0x0B71 => Ok(Enum::DEPTH_TEST),
            0x0B72 => Ok(Enum::DEPTH_WRITEMASK),
            0x0B73 => Ok(Enum::DEPTH_CLEAR_VALUE),
            0x0B74 => Ok(Enum::DEPTH_FUNC),
            0x0B80 => Ok(Enum::ACCUM_CLEAR_VALUE),
            0x0B90 => Ok(Enum::STENCIL_TEST),
            0x0B91 => Ok(Enum::STENCIL_CLEAR_VALUE),
            0x0B92 => Ok(Enum::STENCIL_FUNC),
            0x0B93 => Ok(Enum::STENCIL_VALUE_MASK),
            _ => {
                proof {
                    Enum::lemma_absent(value);
                }
                Err(value)
            },
        }
    }

    /// Searches the part of the table from `STENCIL_FAIL` to `COLOR_CLEAR_VALUE`.
    #[verifier::rlimit(50)]
    fn search_4(value: u32) -> (r: Result<Enum, u32>)
        requires
            0x0B94 <= value,
            value < 0x0C23,
        ensures
            recognised(value, r),
    {
        match value {
            0x0B94 => Ok(Enum::STENCIL_FAIL),
            0x0B95 => Ok(Enum::STENCIL_PASS_DEPTH_FAIL),
            0x0B96 => Ok(Enum::STENCIL_PASS_DEPTH_PASS),
            0x0B97 => Ok(Enum::STENCIL_REF),
            0x0B98 => Ok(Enum::STENCIL_WRITEMASK),
            0x0BA0 => Ok(Enum::MATRIX_MODE),
            0x0BA1 => Ok(Enum::NORMALIZE),
            0x0BA2 => Ok(Enum::VIEWPORT),
            0x0BA3 => Ok(Enum::MODELVIEW_STACK_DEPTH),
            0x0BA4 => Ok(Enum::PROJECTION_STACK_DEPTH),
            0x0BA5 => Ok(Enum::TEXTURE_STACK_DEPTH),
            0x0BA6 => Ok(Enum::MODELVIEW_MATRIX),
            0x0BA7 => Ok(Enum::PROJECTION_MATRIX),
            0x0BA8 => Ok(Enum::TEXTURE_MATRIX),
            0x0BB0 => Ok(Enum::ATTRIB_STACK_DEPTH),
            0x0BC0 => Ok(Enum::ALPHA_TEST),
            0x0BC1 => Ok(Enum::ALPHA_TEST_FUNC),
            0x0BC2 => Ok(Enum::ALPHA_TEST_REF),
            0x0BD0 => Ok(Enum::DITHER),
            0x0BE0 => Ok(Enum::BLEND_DST),
            0x0BE1 => Ok(Enum::BLEND_SRC),
            0x0BE2 => Ok(Enum::BLEND),
            0x0BF0 => Ok(Enum::LOGIC_OP_MODE),
            0x0BF1 => Ok(Enum::LOGIC_OP),
            0x0C00 => Ok(Enum::AUX_BUFFERS),
            0x0C01 => Ok(Enum::DRAW_BUFFER),
            0x0C02 => Ok(Enum::READ_BUFFER),
            0x0C10 => Ok(Enum::SCISSOR_BOX),
            0x0C11 => Ok(Enum::SCISSOR_TEST),
            0x0C20 => Ok(Enum::INDEX_CLEAR_VALUE),
            0x0C21 => Ok(Enum::INDEX_WRITEMASK),
            0x0C22 => Ok(Enum::COLOR_CLEAR_VALUE),
            _ => {
                proof {
                    Enum::lemma_absent(value);
                }
                Err(value)
            },
        }
    }

    /// Searches the part of the table from `COLOR_WRITEMASK` to `PIXEL_MAP_R_TO_R_SIZE`.
    #[verifier::rlimit(50)]
    fn search_5(value: u32) -> (r: Result<Enum, u32>)
        requires
            0x0C23 <= value,
            value < 0x0CB7,
        ensures
            recognised(value, r),
    {
        match value {
            0x0C23 => Ok(Enum::COLOR_WRITEMASK),
            0x0C30 => Ok(Enum::INDEX_MODE),
            0x0C31 => Ok(Enum::RGBA_MODE),
            0x0C32 => Ok(Enum::DOUBLEBUFFER),
            0x0C33 => Ok(Enum::STEREO),
            0x0C40 => Ok(Enum::RENDER_MODE),
            0x0C50 => Ok(Enum::PERSPECTIVE_CORRECTION_HINT),
            0x0C51 => Ok(Enum::POINT_SMOOTH_HINT),
            0x0C52 => Ok(Enum::LINE_SMOOTH_HINT),
            0x0C53 => Ok(Enum::POLYGON_SMOOTH_HINT),
            0x0C54 => Ok(Enum::FOG_HINT),
            0x0C60 => Ok(Enum::TEXTURE_GEN_S),
            0x0C61 => Ok(Enum::TEXTURE_GEN_T),
            0x0C62 => Ok(Enum::TEXTURE_GEN_R),
            0x0C63 => Ok(Enum::TEXTURE_GEN_Q),
            0x0C70 => Ok(Enum::PIXEL_MAP_I_TO_I),
            0x0C71 => Ok(Enum::PIXEL_MAP_S_TO_S),
            0x0C72 => Ok(Enum::PIXEL_MAP_I_TO_R),
            0x0C73 => Ok(Enum::PIXEL_MAP_I_TO_G),
            0x0C74 => Ok(Enum::PIXEL_MAP_I_TO_B),
            0x0C75 => Ok(Enum::PIXEL_MAP_I_TO_A),
            0x0C76 => Ok(Enum::PIXEL_MAP_R_TO_R),
            0x0C77 => Ok(Enum::PIXEL_MAP_G_TO_G),
            0x0C78 => Ok(Enum::PIXEL_MAP_B_TO_B),
            0x0C79 => Ok(Enum::PIXEL_MAP_A_TO_A),
            0x0CB0 => Ok(Enum::PIXEL_MAP_I_TO_I_SIZE),
            0x0CB1 => Ok(Enum::PIXEL_MAP_S_TO_S_SIZE),
            0x0CB2 => Ok(Enum::PIXEL_MAP_I_TO_R_SIZE),
            0x0CB3 => Ok(Enum::PIXEL_MAP_I_TO_G_SIZE),
            0x0CB4 => Ok(Enum::PIXEL_MAP_I_TO_B_SIZE),
            0x0CB5 => Ok(Enum::PIXEL_MAP_I_TO_A_SIZE),
            0x0CB6 => Ok(Enum::PIXEL_MAP_R_TO_R_SIZE),
            _ => {
                proof {
                    Enum::lemma_absent(value);
                }
                Err(value)
            },
        }
    }

    /// Searches the part of the table from `PIXEL_MAP_G_TO_G_SIZE` to `MAX_EVAL_ORDER`.
    #[verifier::rlimit(50)]
    fn search_6(value: u32) -> (r: Result<Enum, u32>)
        requires
            0x0CB7 <= value,
            value < 0x0D31,
        ensures
            recognised(value, r),
    {
        match value {
            0x0CB7 => Ok(Enum::PIXEL_MAP_G_TO_G_SIZE),
            0x0CB8 => Ok(Enum::PIXEL_MAP_B_TO_B_SIZE),
            0x0CB9 => Ok(Enum::PIXEL_MAP_A_TO_A_SIZE),
            0x0CF0 => Ok(Enum::UNPACK_SWAP_BYTES),
            0x0CF1 => Ok(Enum::UNPACK_LSB_FIRST),
            0x0CF2 => Ok(Enum::UNPACK_ROW_LENGTH),
            0x0CF3 => Ok(Enum::UNPACK_SKIP_ROWS),
            0x0CF4 => Ok(Enum::UNPACK_SKIP_PIXELS),
            0x0CF5 => Ok(Enum::UNPACK_ALIGNMENT),
            0x0D00 => Ok(Enum::PACK_SWAP_BYTES),
            0x0D01 => Ok(Enum::PACK_LSB_FIRST),
            0x0D02 => Ok(Enum::PACK_ROW_LENGTH),
            0x0D03 => Ok(Enum::PACK_SKIP_ROWS),
            0x0D04 => Ok(Enum::PACK_SKIP_PIXELS),
            0x0D05 => Ok(Enum::PACK_ALIGNMENT),
            0x0D10 => Ok(Enum::MAP_COLOR),
            0x0D11 => Ok(Enum::MAP_STENCIL),
            0x0D12 => Ok(Enum::INDEX_SHIFT),
            0x0D13 => Ok(Enum::INDEX_OFFSET),
            0x0D14 => Ok(Enum::RED_SCALE),
            0x0D15 => Ok(Enum::RED_BIAS),
            0x0D16 => Ok(Enum::ZOOM_X),
            0x0D17 => Ok(Enum::ZOOM_Y),
            0x0D18 => Ok(Enum::GREEN_SCALE),
            0x0D19 => Ok(Enum::GREEN_BIAS),
            0x0D1A => Ok(Enum::BLUE_SCALE),
            0x0D1B => Ok(Enum::BLUE_BIAS),
            0x0D1C => Ok(Enum::ALPHA_SCALE),
            0x0D1D => Ok(Enum::ALPHA_BIAS),
            0x0D1E => Ok(Enum::DEPTH_SCALE),
            0x0D1F => Ok(Enum::DEPTH_BIAS),
            0x0D30 => Ok(Enum::MAX_EVAL_ORDER),
            _ => {
                proof {
                    Enum::lemma_absent(value);
                }
                Err(value)
            },
        }
    }

    /// Searches the part of the table from `MAX_LIGHTS` to `MAP1_VERTEX_3`.
    #[verifier::rlimit(50)]
    fn search_7(value: u32) -> (r: Result<Enum, u32>)
        requires
            0x0D31 <= value,
            value < 0x0D98,
        ensures
            recognised(value, r),
    {
        match value {
            0x0D31 => Ok(Enum::MAX_LIGHTS),
            0x0D32 => Ok(Enum::MAX_CLIP_PLANES),
            0x0D33 => Ok(Enum::MAX_TEXTURE_SIZE),
            0x0D34 => Ok(Enum::MAX_PIXEL_MAP_TABLE),
            0x0D35 => Ok(Enum::MAX_ATTRIB_STACK_DEPTH),
            0x0D36 => Ok(Enum::MAX_MODELVIEW_STACK_DEPTH),
            0x0D37 => Ok(Enum::MAX_NAME_STACK_DEPTH),
            0x0D38 => Ok(Enum::MAX_PROJECTION_STACK_DEPTH),
            0x0D39 => Ok(Enum::MAX_TEXTURE_STACK_DEPTH),
            0x0D3A => Ok(Enum::MAX_VIEWPORT_DIMS),
            0x0D50 => Ok(Enum::SUBPIXEL_BITS),
            0x0D51 => Ok(Enum::INDEX_BITS),
            0x0D52 => Ok(Enum::RED_BITS),
            0x0D53 => Ok(Enum::GREEN_BITS),
            0x0D54 => Ok(Enum::BLUE_BITS),
            0x0D55 => Ok(Enum::ALPHA_BITS),
            0x0D56 => Ok(Enum::DEPTH_BITS),
            0x0D57 => Ok(Enum::STENCIL_BITS),
            0x0D58 => Ok(Enum::ACCUM_RED_BITS),
            0x0D59 => Ok(Enum::ACCUM_GREEN_BITS),
            0x0D5A => Ok(Enum::ACCUM_BLUE_BITS),
            0x0D5B => Ok(Enum::ACCUM_ALPHA_BITS),
            0x0D70 => Ok(Enum::NAME_STACK_DEPTH),
            0x0D80 => Ok(Enum::AUTO_NORMAL),
            0x0D90 => Ok(Enum::MAP1_COLOR_4),
            0x0D91 => Ok(Enum::MAP1_INDEX),
            0x0D92 => Ok(Enum::MAP1_NORMAL),
            0x0D93 => Ok(Enum::MAP1_TEXTURE_COORD_1),
            0x0D94 => Ok(Enum::MAP1_TEXTURE_COORD_2),
            0x0D95 => Ok(Enum::MAP1_TEXTURE_COORD_3),
            0x0D96 => Ok(Enum::MAP1_TEXTURE_COORD_4),
            0x0D97 => Ok(Enum::MAP1_VERTEX_3),
            _ => {
                proof {
                    Enum::lemma_absent(value);
                }
                Err(value)
            },
        }
    }

    /// Searches the part of the table from `MAP1_VERTEX_4` to `CONSTANT_ATTENUATION`.
    #[verifier::rlimit(50)]
    fn search_8(value: u32) -> (r: Result<Enum, u32>)
        requires
            0x0D98 <= value,
            value < 0x1208,
        ensures
            recognised(value, r),
    {
        match value {
            0x0D98 => Ok(Enum::MAP1_VERTEX_4),
            0x0DB0 => Ok(Enum::MAP2_COLOR_4),
            0x0DB1 => Ok(Enum::MAP2_INDEX),
            0x0DB2 => Ok(Enum::MAP2_NORMAL),
            0x0DB3 => Ok(Enum::MAP2_TEXTURE_COORD_1),
            0x0DB4 => Ok(Enum::MAP2_TEXTURE_COORD_2),
            0x0DB5 => Ok(Enum::MAP2_TEXTURE_COORD_3),
            0x0DB6 => Ok(Enum::MAP2_TEXTURE_COORD_4),
            0x0DB7 => Ok(Enum::MAP2_VERTEX_3),
            0x0DB8 => Ok(Enum::MAP2_VERTEX_4),
            0x0DD0 => Ok(Enum::MAP1_GRID_DOMAIN),
            0x0DD1 => Ok(Enum::MAP1_GRID_SEGMENTS),
            0x0DD2 => Ok(Enum::MAP2_GRID_DOMAIN),
            0x0DD3 => Ok(Enum::MAP2_GRID_SEGMENTS),
            0x0DE0 => Ok(Enum::TEXTURE_1D),
            0x0DE1 => Ok(Enum::TEXTURE_2D),
            0x1000 => Ok(Enum::TEXTURE_WIDTH),
            0x1001 => Ok(Enum::TEXTURE_HEIGHT),
            0x1003 => Ok(Enum::TEXTURE_COMPONENTS),
            0x1004 => Ok(Enum::TEXTURE_BORDER_COLOR),
            0x1005 => Ok(Enum::TEXTURE_BORDER),
            0x1100 => Ok(Enum::DONT_CARE),
            0x1101 => Ok(Enum::FASTEST),
            0x1102 => Ok(Enum::NICEST),
            0x1200 => Ok(Enum::AMBIENT),
            0x1201 => Ok(Enum::DIFFUSE),
            0x1202 => Ok(Enum::SPECULAR),
            0x1203 => Ok(Enum::POSITION),
            0x1204 => Ok(Enum::SPOT_DIRECTION),
            0x1205 => Ok(Enum::SPOT_EXPONENT),
            0x1206 => Ok(Enum::SPOT_CUTOFF),
            0x1207 => Ok(Enum::CONSTANT_ATTENUATION),
            _ => {
                proof {
                    Enum::lemma_absent(value);
                }
                Err(value)
            },
        }
    }

    /// Searches the part of the table from `LINEAR_ATTENUATION` to `SHININESS`.
    #[verifier::rlimit(50)]
    fn search_9(value: u32) -> (r: Result<Enum, u32>)
        requires
            0x1208 <= value,
            value < 0x1602,
        ensures
            recognised(value, r),
    {
        match value {
            0x1208 => Ok(Enum::LINEAR_ATTENUATION),
            0x1209 => Ok(Enum::QUADRATIC_ATTENUATION),
            0x1300 => Ok(Enum::COMPILE),
            0x1301 => Ok(Enum::COMPILE_AND_EXECUTE),
            0x1400 => Ok(Enum::BYTE),
            0x1401 => Ok(Enum::UNSIGNED_BYTE),
            0x1402 => Ok(Enum::SHORT),
            0x1403 => Ok(Enum::UNSIGNED_SHORT),
            0x1404 => Ok(Enum::INT),
            0x1405 => Ok(Enum::UNSIGNED_INT),
            0x1406 => Ok(Enum::FLOAT),
            0x1407 => Ok(Enum::_2_BYTES),
            0x1408 => Ok(Enum::_3_BYTES),
            0x1409 => Ok(Enum::_4_BYTES),
            0x1500 => Ok(Enum::CLEAR),
            0x1501 => Ok(Enum::AND),
            0x1502 => Ok(Enum::AND_REVERSE),
            0x1503 => Ok(Enum::COPY),
            0x1504 => Ok(Enum::AND_INVERTED),
            0x1505 => Ok(Enum::NOOP),
            0x1506 => Ok(Enum::XOR),
            0x1507 => Ok(Enum::OR),
            0x1508 => Ok(Enum::NOR),
            0x1509 => Ok(Enum::EQUIV),
            0x150A => Ok(Enum::INVERT),
            0x150B => Ok(Enum::OR_REVERSE),
            0x150C => Ok(Enum::COPY_INVERTED),
            0x150D => Ok(Enum::OR_INVERTED),
            0x150E => Ok(Enum::NAND),
            0x150F => Ok(Enum::SET),
            0x1600 => Ok(Enum::EMISSION),
            0x1601 => Ok(Enum::SHININESS),
            _ => {
                proof {
                    Enum::lemma_absent(value);
                }
                Err(value)
            },
        }
    }

    /// Searches the part of the table from `AMBIENT_AND_DIFFUSE` to `DECR`.
    #[verifier::rlimit(50)]
    fn search_10(value: u32) -> (r: Result<Enum, u32>)
        requires
            0x1602 <= value,
            value < 0x1F00,
        ensures
            recognised(value, r),
    {
        match value {
            0x1602 => Ok(Enum::AMBIENT_AND_DIFFUSE),
            0x1603 => Ok(Enum::COLOR_INDEXES),
            0x1700 => Ok(Enum::MODELVIEW),
            0x1701 => Ok(Enum::PROJECTION),
            0x1702 => Ok(Enum::TEXTURE),
            0x1800 => Ok(Enum::COLOR),
            0x1801 => Ok(Enum::DEPTH),
            0x1802 => Ok(Enum::STENCIL),
            0x1900 => Ok(Enum::COLOR_INDEX),
            0x1901 => Ok(Enum::STENCIL_INDEX),
            0x1902 => Ok(Enum::DEPTH_COMPONENT),
            0x1903 => Ok(Enum::RED),
            0x1904 => Ok(Enum::GREEN),
            0x1905 => Ok(Enum::BLUE),
            0x1906 => Ok(Enum::ALPHA),
            0x1907 => Ok(Enum::RGB),
            0x1908 => Ok(Enum::RGBA),
            0x1909 => Ok(Enum::LUMINANCE),
            0x190A => Ok(Enum::LUMINANCE_ALPHA),
            0x1A00 => Ok(Enum::BITMAP),
            0x1B00 => Ok(Enum::POINT),
            0x1B01 => Ok(Enum::LINE),
            0x1B02 => Ok(Enum::FILL),
            0x1C00 => Ok(Enum::RENDER),
            0x1C01 => Ok(Enum::FEEDBACK),
            0x1C02 => Ok(Enum::SELECT),
            0x1D00 => Ok(Enum::FLAT),
            0x1D01 => Ok(Enum::SMOOTH),
            0x1E00 => Ok(Enum::KEEP),
            0x1E01 => Ok(Enum::REPLACE),
            0x1E02 => Ok(Enum::INCR),
            0x1E03 => Ok(Enum::DECR),
            _ => {
                proof {
                    Enum::lemma_absent(value);
                }
                Err(value)
            },
        }
    }

    /// Searches the part of the table from `VENDOR` to `CLIP_PLANE0`.
    #[verifier::rlimit(50)]
    fn search_11(value: u32) -> (r: Result<Enum, u32>)
        requires
            0x1F00 <= value,
            value < 0x3001,
        ensures
            recognised(value, r),
    {
        match value {
            0x1F00 => Ok(Enum::VENDOR),
            0x1F01 => Ok(Enum::RENDERER),
            0x1F02 => Ok(Enum::VERSION),
            0x1F03 => Ok(Enum::EXTENSIONS),
            0x2000 => Ok(Enum::S),
            0x2001 => Ok(Enum::T),
            0x2002 => Ok(Enum::R),
            0x2003 => Ok(Enum::Q),
            0x2100 => Ok(Enum::MODULATE),
            0x2101 => Ok(Enum::DECAL),
            0x2200 => Ok(Enum::TEXTURE_ENV_MODE),
            0x2201 => Ok(Enum::TEXTURE_ENV_COLOR),
            0x2300 => Ok(Enum::TEXTURE_ENV),
            0x2400 => Ok(Enum::EYE_LINEAR),
            0x2401 => Ok(Enum::OBJECT_LINEAR),
            0x2402 => Ok(Enum::SPHERE_MAP),
            0x2500 => Ok(Enum::TEXTURE_GEN_MODE),
            0x2501 => Ok(Enum::OBJECT_PLANE),
            0x2502 => Ok(Enum::EYE_PLANE),
            0x2600 => Ok(Enum::NEAREST),
            0x2601 => Ok(Enum::LINEAR),
            0x2700 => Ok(Enum::NEAREST_MIPMAP_NEAREST),
            0x2701 => Ok(Enum::LINEAR_MIPMAP_NEAREST),
            0x2702 => Ok(Enum::NEAREST_MIPMAP_LINEAR),
            0x2703 => Ok(Enum::LINEAR_MIPMAP_LINEAR),
            0x2800 => Ok(Enum::TEXTURE_MAG_FILTER),
            0x2801 => Ok(Enum::TEXTURE_MIN_FILTER),
            0x2802 => Ok(Enum::TEXTURE_WRAP_S),
            0x2803 => Ok(Enum::TEXTURE_WRAP_T),
            0x2900 => Ok(Enum::CLAMP),
            0x2901 => Ok(Enum::REPEAT),
            0x3000 => Ok(Enum::CLIP_PLANE0),
            _ => {
                proof {
                    Enum::lemma_absent(value);
                }
                Err(value)
            },
        }
    }

    /// Searches the part of the table from `CLIP_PLANE1` to `LIGHT7`.
    #[verifier::rlimit(50)]
    fn search_12(value: u32) -> (r: Result<Enum, u32>)
        requires
            0x3001 <= value,
        ensures
            recognised(value, r),
    {
        match value {
            0x3001 => Ok(Enum::CLIP_PLANE1),
            0x3002 => Ok(Enum::CLIP_PLANE2),
            0x3003 => Ok(Enum::CLIP_PLANE3),
            0x3004 => Ok(Enum::CLIP_PLANE4),
            0x3005 => Ok(Enum::CLIP_PLANE5),
            0x4000 => Ok(Enum::LIGHT0),
            0x4001 => Ok(Enum::LIGHT1),
            0x4002 => Ok(Enum::LIGHT2),
            0x4003 => Ok(Enum::LIGHT3),
            0x4004 => Ok(Enum::LIGHT4),
            0x4005 => Ok(Enum::LIGHT5),
            0x4006 => Ok(Enum::LIGHT6),
            0x4007 => Ok(Enum::LIGHT7),
            _ => {
                proof {
                    Enum::lemma_absent(value);
                }
                Err(value)
            },
        }
    }

    /// Recognises a number: the constant it stands for, or the number itself
    /// handed back when no constant has it.
    pub fn try_from(value: u32) -> (r: Result<Enum, u32>)
        ensures
            recognised(value, r),
    {
        if value < 0x0400 {
            Enum::search_0(value)
        } else if value < 0x0800 {
            Enum::search_1(value)
        } else if value < 0x0B40 {
            Enum::search_2(value)
        } else if value < 0x0B94 {
            Enum::search_3(value)
        } else if value < 0x0C23 {
            Enum::search_4(value)
        } else if value < 0x0CB7 {
            Enum::search_5(value)
        } else if value < 0x0D31 {
            Enum::search_6(value)
        } else if value < 0x0D98 {
            Enum::search_7(value)
        } else if value < 0x1208 {
            Enum::search_8(value)
        } else if value < 0x1602 {
            Enum::search_9(value)
        } else if value < 0x1F00 {
            Enum::search_10(value)
        } else if value < 0x3001 {
            Enum::search_11(value)
        } else {
            Enum::search_12(value)
        }
    }
}

} // verus!
