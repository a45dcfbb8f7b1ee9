use vstd::prelude::*;

verus! {

/// Horizontal window extent must be a multiple of this (the screen is 64 cells wide).
pub const DEFAULT_CHIP8_PIXEL_HEIGHT: u32 = 64;

/// Vertical window extent must be a multiple of this (the screen is 32 cells tall).
pub const DEFAULT_CHIP8_PIXEL_WIDTH: u32 = 32;

/// One framebuffer cell, carrying its grid coordinates and the scale factors
/// a rendering adapter should draw it at.
#[derive(Clone, Copy, Debug, PartialEq, Eq, Structural)]
pub struct Pixel {
    pub x: u32,
    pub y: u32,
    pub on: bool,
    pub x_scale: u32,
    pub y_scale: u32,
}

impl Pixel {
    pub fn new(x: u32, y: u32, on: bool, x_scale: u32, y_scale: u32) -> (pixel: Pixel)
        ensures
            pixel == (Pixel { x, y, on, x_scale, y_scale }),
    {
        Pixel { x, y, on, x_scale, y_scale }
    }

    /// Builds the demonstration pixel grid for a window of the given size:
    /// one column vector per horizontal cell, each holding the 32 cells of
    /// that column, with every other cell along a column lit.
    pub fn build_from_window_size(height: u32, width: u32) -> (result: Result<
        Vec<Vec<Pixel>>,
        String,
    >)
        ensures
            height % DEFAULT_CHIP8_PIXEL_HEIGHT != 0 ==> (result matches Err(m) && m@
                == height_error_message(height)),
            height % DEFAULT_CHIP8_PIXEL_HEIGHT == 0 && width % DEFAULT_CHIP8_PIXEL_WIDTH != 0 ==> (
            result matches Err(m) && m@ == width_error_message(width)),
            height % DEFAULT_CHIP8_PIXEL_HEIGHT == 0 && width % DEFAULT_CHIP8_PIXEL_WIDTH == 0 ==> (
            result matches Ok(pixels) && demo_grid_ok(
                pixels@,
                height / DEFAULT_CHIP8_PIXEL_HEIGHT,
                width / DEFAULT_CHIP8_PIXEL_WIDTH,
            )),
    {
        if height % DEFAULT_CHIP8_PIXEL_HEIGHT != 0 {
            return Err(height_error_string(height));
        }
        if width % DEFAULT_CHIP8_PIXEL_WIDTH != 0 {
            return Err(width_error_string(width));
        }
        let height_scale = height / DEFAULT_CHIP8_PIXEL_HEIGHT;
        let width_scale = width / DEFAULT_CHIP8_PIXEL_WIDTH;

        let mut pixels: Vec<Vec<Pixel>> = Vec::new();
        for x_location in 0..64u32
            invariant
                pixels@.len() == x_location,
                forall|i: int| 0 <= i < x_location ==> (#[trigger] pixels@[i])@.len() == 32,
                forall|i: int, j: int|
                    0 <= i < x_location && 0 <= j < 32 ==> #[trigger] pixels@[i]@[j] == (Pixel {
                        x: i as u32,
                        y: j as u32,
                        on: j % 2 == 0,
                        x_scale: height_scale,
                        y_scale: width_scale,
                    }),
        {
            let mut column: Vec<Pixel> = Vec::new();
            for y_location in 0..32u32
                invariant
                    column@.len() == y_location,
                    forall|j: int|
                        0 <= j < y_location ==> #[trigger] column@[j] == (Pixel {
                            x: x_location as u32,
                            y: j as u32,
                            on: j % 2 == 0,
                            x_scale: height_scale,
                            y_scale: width_scale,
                        }),
            {
                let on = y_location % 2 == 0;
                column.push(Pixel::new(x_location, y_location, on, height_scale, width_scale));
            }
            pixels.push(column);
        }
        Ok(pixels)
    }
}

/// The grid `build_from_window_size` yields: 64 columns of 32 cells, cell
/// `(i, j)` at coordinates `(i, j)`, lit exactly on the even rows, with the
/// window's two scale factors recorded in every cell.
pub open spec fn demo_grid_ok(pixels: Seq<Vec<Pixel>>, height_scale: u32, width_scale: u32) -> bool {
    &&& pixels.len() == 64
    &&& forall|i: int| 0 <= i < 64 ==> (#[trigger] pixels[i])@.len() == 32
    &&& forall|i: int, j: int|
        0 <= i < 64 && 0 <= j < 32 ==> #[trigger] pixels[i]@[j] == (Pixel {
            x: i as u32,
            y: j as u32,
            on: j % 2 == 0,
            x_scale: height_scale,
            y_scale: width_scale,
        })
}

/// The decimal digit characters of `n`, most significant digit first.
pub open spec fn dec_digits(n: int) -> Seq<char>
    decreases n,
{
    if n < 10 {
        seq![digit_char(n)]
    } else {
        dec_digits(n / 10).push(digit_char(n % 10))
    }
}

pub open spec fn digit_char(d: int) -> char {
    if d == 0 {
        '0'
    } else if d == 1 {
        '1'
    } else if d == 2 {
        '2'
    } else if d == 3 {
        '3'
    } else if d == 4 {
        '4'
    } else if d == 5 {
        '5'
    } else if d == 6 {
        '6'
    } else if d == 7 {
        '7'
    } else if d == 8 {
        '8'
    } else {
        '9'
    }
}

pub open spec fn height_error_message(height: u32) -> Seq<char> {
    "Window height is not evenly divisible by default height. Window height: "@ + dec_digits(
        height as int,
    ) + ", default height: 64"@
}

pub open spec fn width_error_message(width: u32) -> Seq<char> {
    "Window width is not evenly divisible by default width. Window width: "@ + dec_digits(
        width as int,
    ) + ", default width: 32"@
}

pub open spec fn scale_mismatch_message(width_scale: u32, height_scale: u32) -> Seq<char> {
    "Window width scale and window height scale do not match. Width scale: "@ + dec_digits(
        width_scale as int,
    ) + ", height scale: "@ + dec_digits(height_scale as int)
}

/// The one-character string for a decimal digit.
fn digit_str(d: u32) -> (s: &'static str)
    requires
        d < 10,
    ensures
        s@ == seq![digit_char(d as int)],
{
    proof {
        reveal_strlit("0");
        reveal_strlit("1");
        reveal_strlit("2");
        reveal_strlit("3");
        reveal_strlit("4");
        reveal_strlit("5");
        reveal_strlit("6");
        reveal_strlit("7");
        reveal_strlit("8");
        reveal_strlit("9");
    }
    let s: &'static str = if d == 0 {
        "0"
    } else if d == 1 {
        "1"
    } else if d == 2 {
        "2"
    } else if d == 3 {
        "3"
    } else if d == 4 {
        "4"
    } else if d == 5 {
        "5"
    } else if d == 6 {
        "6"
    } else if d == 7 {
        "7"
    } else if d == 8 {
        "8"
    } else {
        "9"
    };
    proof {
        assert(s@ =~= seq![digit_char(d as int)]);
    }
    s
}

/// Renders `n` as its decimal digits, most significant first.
pub fn decimal_string(n: u32) -> (s: String)
    ensures
        s@ == dec_digits(n as int),
    decreases n,
{
    if n < 10 {
        String::from_str(digit_str(n))
    } else {
        let mut s = decimal_string(n / 10);
        s.append(digit_str(n % 10));
        proof {
            assert(s@ =~= dec_digits(n as int));
        }
        s
    }
}

pub(crate) fn height_error_string(height: u32) -> (message: String)
    ensures
        message@ == height_error_message(height),
{
    let mut message = String::from_str(
        "Window height is not evenly divisible by default height. Window height: ",
    );
    message.append(decimal_string(height).as_str());
    message.append(", default height: 64");
    proof {
        assert(message@ =~= height_error_message(height));
    }
    message
}

pub(crate) fn width_error_string(width: u32) -> (message: String)
    ensures
        message@ == width_error_message(width),
{
    let mut message = String::from_str(
        "Window width is not evenly divisible by default width. Window width: ",
    );
    message.append(decimal_string(width).as_str());
    message.append(", default width: 32");
    proof {
        assert(message@ =~= width_error_message(width));
    }
    message
}

pub(crate) fn scale_mismatch_string(width_scale: u32, height_scale: u32) -> (message: String)
    ensures
        message@ == scale_mismatch_message(width_scale, height_scale),
{
    let mut message = String::from_str(
        "Window width scale and window height scale do not match. Width scale: ",
    );
    message.append(decimal_string(width_scale).as_str());
    message.append(", height scale: ");
    message.append(decimal_string(height_scale).as_str());
    proof {
        assert(message@ =~= scale_mismatch_message(width_scale, height_scale));
    }
    message
}

} // verus!
