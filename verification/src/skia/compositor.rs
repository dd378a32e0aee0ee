//! The compositor: formats, background and queries.

use crate::text::str_eq;
use crate::video::VideoFormat;
use vstd::prelude::*;

verus! {

/// The pixel layouts that can be drawn on.
#[derive(Debug, Clone, Copy, PartialEq, Eq, Structural)]
pub enum ColorType {
    Rgba8888,
    Bgra8888,
    Rgb888x,
    Rgb565,
    Gray8,
}

/// The layout of a video format, where it can be drawn on.
pub open spec fn color_type_of(format: VideoFormat) -> Option<ColorType> {
    match format {
        VideoFormat::Rgba => Some(ColorType::Rgba8888),
        VideoFormat::Bgra => Some(ColorType::Bgra8888),
        VideoFormat::Rgbx => Some(ColorType::Rgb888x),
        VideoFormat::Rgb16 => Some(ColorType::Rgb565),
        VideoFormat::Gray8 => Some(ColorType::Gray8),
        _ => None,
    }
}

/// The layout of a video format, where it can be drawn on.
pub fn gst_to_skia(video_format: VideoFormat) -> (color_type: Option<ColorType>)
    ensures
        color_type == color_type_of(video_format),
{
    match video_format {
        VideoFormat::Rgba => Some(ColorType::Rgba8888),
        VideoFormat::Bgra => Some(ColorType::Bgra8888),
        VideoFormat::Rgbx => Some(ColorType::Rgb888x),
        VideoFormat::Rgb16 => Some(ColorType::Rgb565),
        VideoFormat::Gray8 => Some(ColorType::Gray8),
        _ => None,
    }
}

/// The video formats that can be drawn on, in order of preference.
pub fn gst_formats() -> (formats: Vec<VideoFormat>)
    ensures
        formats@ == seq![
            VideoFormat::Rgba,
            VideoFormat::Bgra,
            VideoFormat::Rgbx,
            VideoFormat::Rgb16,
            VideoFormat::Gray8,
        ],
{
    let mut formats: Vec<VideoFormat> = Vec::new();
    formats.push(VideoFormat::Rgba);
    formats.push(VideoFormat::Bgra);
    formats.push(VideoFormat::Rgbx);
    formats.push(VideoFormat::Rgb16);
    formats.push(VideoFormat::Gray8);
    proof {
        assert(formats@ =~= seq![
            VideoFormat::Rgba,
            VideoFormat::Bgra,
            VideoFormat::Rgbx,
            VideoFormat::Rgb16,
            VideoFormat::Gray8,
        ]);
    }
    formats
}

/// The formats that are offered are exactly those that can be drawn on.
pub proof fn law_offered_formats_can_be_drawn(format: VideoFormat)
    ensures
        seq![
            VideoFormat::Rgba,
            VideoFormat::Bgra,
            VideoFormat::Rgbx,
            VideoFormat::Rgb16,
            VideoFormat::Gray8,
        ].contains(format) <==> color_type_of(format) is Some,
{
    let formats = seq![
        VideoFormat::Rgba,
        VideoFormat::Bgra,
        VideoFormat::Rgbx,
        VideoFormat::Rgb16,
        VideoFormat::Gray8,
    ];
    assert(formats[0] == VideoFormat::Rgba && formats[1] == VideoFormat::Bgra && formats[2]
        == VideoFormat::Rgbx && formats[3] == VideoFormat::Rgb16 && formats[4]
        == VideoFormat::Gray8);
}

/// What is drawn under the frames.
#[derive(Debug, Clone, Copy, PartialEq, Eq, Structural)]
pub enum SkiaCompositorBackground {
    Checker,
    Black,
    White,
    Transparent,
}

impl Default for SkiaCompositorBackground {
    fn default() -> (background: SkiaCompositorBackground)
        ensures
            background == SkiaCompositorBackground::Black,
    {
        SkiaCompositorBackground::Black
    }
}

/// The element, with its background and the names of its pads.
#[derive(Debug)]
pub struct SkiaCompositor {
    pub background: SkiaCompositorBackground,
    pub pads: Vec<String>,
}

/// The colours of backgrounds.
#[derive(Debug, Clone, Copy, PartialEq, Eq, Structural)]
pub enum BackgroundColor {
    Black,
    White,
    Transparent,
    DarkGray,
    Gray,
}

/// A rectangle of one colour.
#[derive(Debug, Clone, Copy, PartialEq, Eq, Structural)]
pub struct ColoredRect {
    pub x: i32,
    pub y: i32,
    pub width: i32,
    pub height: i32,
    pub color: BackgroundColor,
}

/// The side of a square of the checkerboard.
pub const SQUARE_SIZE: i32 = 10;

/// How many squares fit along a side.
pub open spec fn squares_along(side: i32) -> int {
    if side < 0 {
        0
    } else {
        side as int / 10
    }
}

/// The square in a column and a row.
pub open spec fn checker_square(column: int, row: int) -> ColoredRect {
    ColoredRect {
        x: (column * 10) as i32,
        y: (row * 10) as i32,
        width: SQUARE_SIZE,
        height: SQUARE_SIZE,
        color: if (column + row) % 2 == 0 {
            BackgroundColor::DarkGray
        } else {
            BackgroundColor::Gray
        },
    }
}

/// The squares of a column.
pub open spec fn checker_column(column: int, rows: int) -> Seq<ColoredRect> {
    Seq::new(rows as nat, |row: int| checker_square(column, row))
}

/// The squares of the first columns, one column after the other.
pub open spec fn checker_columns(columns: int, rows: int) -> Seq<ColoredRect>
    decreases columns,
{
    if columns <= 0 {
        Seq::empty()
    } else {
        checker_columns(columns - 1, rows) + checker_column(columns - 1, rows)
    }
}

fn checker(width: i32, height: i32) -> (squares: Vec<ColoredRect>)
    ensures
        squares@ == checker_columns(squares_along(width), squares_along(height)),
{
    let mut squares: Vec<ColoredRect> = Vec::new();
    let columns: i32 = if width < 0 {
        0
    } else {
        width / SQUARE_SIZE
    };
    let rows: i32 = if height < 0 {
        0
    } else {
        height / SQUARE_SIZE
    };
    let mut i: i32 = 0;
    while i < columns
        invariant
            columns == squares_along(width),
            rows == squares_along(height),
            0 <= i <= columns,
            squares@ == checker_columns(i as int, rows as int),
        decreases columns - i,
    {
        let ghost done = squares@;
        let mut j: i32 = 0;
        while j < rows
            invariant
                columns == squares_along(width),
                rows == squares_along(height),
                0 <= i < columns,
                0 <= j <= rows,
                squares@ == done + checker_column(i as int, j as int),
            decreases rows - j,
        {
            let parity: i64 = (i as i64 + j as i64) % 2;
            let color = if parity == 0 {
                BackgroundColor::DarkGray
            } else {
                BackgroundColor::Gray
            };
            squares.push(
                ColoredRect {
                    x: i * SQUARE_SIZE,
                    y: j * SQUARE_SIZE,
                    width: SQUARE_SIZE,
                    height: SQUARE_SIZE,
                    color,
                },
            );
            j = j + 1;
            proof {
                assert(squares@ =~= done + checker_column(i as int, j as int));
            }
        }
        i = i + 1;
    }
    squares
}

impl SkiaCompositor {
    /// What is drawn as the background of a frame: one rectangle of a colour, or a checkerboard on the
    /// canvas, whose size is given too, as far as whole squares go.
    pub fn draw_background(
        &self,
        canvas_width: i32,
        canvas_height: i32,
        width: i32,
        height: i32,
    ) -> (rects: Vec<ColoredRect>)
        ensures
            rects@ == background_rects(
                self.background,
                (canvas_width, canvas_height),
                (width, height),
            ),
            rects@ == match self.background {
                SkiaCompositorBackground::Checker => checker_columns(
                    squares_along(canvas_width),
                    squares_along(canvas_height),
                ),
                SkiaCompositorBackground::Black => seq![
                    ColoredRect { x: 0, y: 0, width, height, color: BackgroundColor::Black },
                ],
                SkiaCompositorBackground::White => seq![
                    ColoredRect { x: 0, y: 0, width, height, color: BackgroundColor::White },
                ],
                SkiaCompositorBackground::Transparent => seq![
                    ColoredRect { x: 0, y: 0, width, height, color: BackgroundColor::Transparent },
                ],
            },
    {
        let color = match self.background {
            SkiaCompositorBackground::Black => BackgroundColor::Black,
            SkiaCompositorBackground::White => BackgroundColor::White,
            SkiaCompositorBackground::Transparent => BackgroundColor::Transparent,
            SkiaCompositorBackground::Checker => return checker(canvas_width, canvas_height),
        };
        let mut rects: Vec<ColoredRect> = Vec::new();
        rects.push(ColoredRect { x: 0, y: 0, width, height, color });
        proof {
            assert(rects@ =~= seq![ColoredRect { x: 0, y: 0, width, height, color }]);
        }
        rects
    }
}

/// The checkerboard alternates: a square and its neighbours to the right and below differ in
/// colour.
pub proof fn law_neighbours_differ(column: int, row: int)
    requires
        0 <= column,
        0 <= row,
    ensures
        checker_square(column, row).color != checker_square(column + 1, row).color,
        checker_square(column, row).color != checker_square(column, row + 1).color,
{
}

/// A query on a sink pad.
#[derive(Debug, Clone, Copy, PartialEq, Eq, Structural)]
pub enum SinkQuery {
    Caps { has_filter: bool },
    AcceptCaps,
    Other,
}

/// What answers a query on a sink pad.
#[derive(Debug, Clone, Copy, PartialEq, Eq, Structural)]
pub enum SinkQueryAnswer {
    /// The caps of the pad's template.
    TemplateCaps,
    /// The filter, cut down to them.
    FilteredTemplateCaps,
    /// Whether the caps are among them.
    IsSubsetOfTemplate,
    /// The base class.
    Parent,
}

impl SkiaCompositor {
    /// What answers a query on a sink pad: any caps of the pad's template are accepted, whatever the
    /// output format is.
    pub fn sink_query(&self, query: SinkQuery) -> (answer: SinkQueryAnswer)
        ensures
            answer == match query {
                SinkQuery::Caps { has_filter: true } => SinkQueryAnswer::FilteredTemplateCaps,
                SinkQuery::Caps { has_filter: false } => SinkQueryAnswer::TemplateCaps,
                SinkQuery::AcceptCaps => SinkQueryAnswer::IsSubsetOfTemplate,
                SinkQuery::Other => SinkQueryAnswer::Parent,
            },
    {
        match query {
            SinkQuery::Caps { has_filter } => if has_filter {
                SinkQueryAnswer::FilteredTemplateCaps
            } else {
                SinkQueryAnswer::TemplateCaps
            },
            SinkQuery::AcceptCaps => SinkQueryAnswer::IsSubsetOfTemplate,
            SinkQuery::Other => SinkQueryAnswer::Parent,
        }
    }
}

impl SkiaCompositor {
    /// The place of the first pad with a name.
    pub fn child_by_name(&self, name: &str) -> (place: Option<usize>)
        ensures
            match place {
                Some(i) => {
                    &&& i < self.pads.len()
                    &&& self.pads[i as int]@ == name@
                    &&& forall|k: int| 0 <= k < i ==> (#[trigger] self.pads[k])@ != name@
                },
                None => forall|k: int| 0 <= k < self.pads.len() ==> (#[trigger] self.pads[k])@ != name@,
            },
    {
        let mut i: usize = 0;
        while i < self.pads.len()
            invariant
                i <= self.pads.len(),
                forall|k: int| 0 <= k < i ==> (#[trigger] self.pads[k])@ != name@,
            decreases self.pads.len() - i,
        {
            if str_eq(self.pads[i].as_str(), name) {
                return Some(i);
            }
            i = i + 1;
        }
        None
    }

    /// The pad at a place.
    pub fn child_by_index(&self, index: u32) -> (name: Option<&String>)
        ensures
            match name {
                Some(name) => index < self.pads.len() && *name == self.pads[index as int],
                None => index >= self.pads.len(),
            },
    {
        let i: usize = index as usize;
        if i < self.pads.len() {
            Some(&self.pads[i])
        } else {
            None
        }
    }

    /// How many pads there are.
    pub fn children_count(&self) -> (count: u32)
        requires
            self.pads.len() <= u32::MAX,
        ensures
            count == self.pads.len(),
    {
        self.pads.len() as u32
    }
}

/// A point is inside a rectangle.
pub open spec fn covers(rect: ColoredRect, x: int, y: int) -> bool {
    rect.x <= x < rect.x + rect.width && rect.y <= y < rect.y + rect.height
}

proof fn lemma_columns(columns: int, rows: int, column: int, row: int)
    requires
        0 <= column < columns,
        0 <= row < rows,
    ensures
        checker_columns(columns, rows).len() == columns * rows,
        0 <= column * rows + row < columns * rows,
        checker_columns(columns, rows)[column * rows + row] == checker_square(column, row),
    decreases columns,
{
    let before = checker_columns(columns - 1, rows);
    let last = checker_column(columns - 1, rows);
    lemma_number_of_squares(columns - 1, rows);
    assert((columns - 1) * rows + rows == columns * rows) by (nonlinear_arith);
    if column < columns - 1 {
        lemma_columns(columns - 1, rows, column, row);
        assert((before + last)[column * rows + row] == before[column * rows + row]);
    } else {
        assert(0 <= (columns - 1) * rows) by (nonlinear_arith)
            requires
                1 <= columns,
                0 <= rows,
        ;
        assert((before + last)[(columns - 1) * rows + row] == last[row]);
    }
}

proof fn lemma_number_of_squares(columns: int, rows: int)
    requires
        0 <= columns,
        0 <= rows,
    ensures
        checker_columns(columns, rows).len() == columns * rows,
    decreases columns,
{
    if columns > 0 {
        lemma_number_of_squares(columns - 1, rows);
        assert((columns - 1) * rows + rows == columns * rows) by (nonlinear_arith);
    } else {
        assert(columns * rows == 0) by (nonlinear_arith)
            requires
                columns == 0,
        ;
    }
}

/// The checkerboard covers the canvas as far as whole squares of ten by ten go: every point there is
/// in a square, and the colour goes by the column and the row of squares that it is in, dark gray in
/// the first one. No square reaches past the canvas.
pub proof fn law_the_checkerboard_covers_the_canvas(width: i32, height: i32, x: int, y: int)
    requires
        0 <= x < 10 * (width as int / 10),
        0 <= y < 10 * (height as int / 10),
    ensures
        exists|k: int|
            0 <= k < checker_columns(squares_along(width), squares_along(height)).len() && covers(
                #[trigger] checker_columns(squares_along(width), squares_along(height))[k],
                x,
                y,
            ) && checker_columns(squares_along(width), squares_along(height))[k].color == if (x / 10 + y
                / 10) % 2 == 0 {
                BackgroundColor::DarkGray
            } else {
                BackgroundColor::Gray
            },
        checker_columns(squares_along(width), squares_along(height)).len() == (width as int / 10) * (
        height as int / 10),
{
    let columns = squares_along(width);
    let rows = squares_along(height);
    lemma_columns(columns, rows, x / 10, y / 10);
    let k = (x / 10) * rows + y / 10;
    assert(covers(checker_columns(columns, rows)[k], x, y));
}

/// Two squares of the checkerboard never share a point.
pub proof fn law_squares_do_not_overlap(a: (int, int), b: (int, int), x: int, y: int)
    requires
        0 <= a.0 < 100_000_000 && 0 <= a.1 < 100_000_000,
        0 <= b.0 < 100_000_000 && 0 <= b.1 < 100_000_000,
        covers(checker_square(a.0, a.1), x, y),
        covers(checker_square(b.0, b.1), x, y),
    ensures
        a == b,
{
}

/// A format is drawn on in the layout that its letters spell, four bytes for a pixel, or in one of
/// the two layouts that have no byte for each colour.
pub proof fn law_layouts_spell_their_formats(format: VideoFormat)
    ensures
        ({
            let letters = crate::video::pixel_letters(format);
            &&& color_type_of(format) == Some(ColorType::Rgba8888) <==> letters == seq![
                'R',
                'G',
                'B',
                'A',
            ]
            &&& color_type_of(format) == Some(ColorType::Bgra8888) <==> letters == seq![
                'B',
                'G',
                'R',
                'A',
            ]
            &&& color_type_of(format) == Some(ColorType::Rgb888x) <==> letters == seq![
                'R',
                'G',
                'B',
                'x',
            ]
            &&& color_type_of(format) == Some(ColorType::Rgb565) <==> format == VideoFormat::Rgb16
            &&& color_type_of(format) == Some(ColorType::Gray8) <==> format == VideoFormat::Gray8
        }),
{
    let letters = crate::video::pixel_letters(format);
    if letters.len() == 4 {
        assert(letters[0] == 'R' || letters[0] == 'B');
        assert(letters[3] == 'A' || letters[3] == 'x');
    }
    if letters.len() == 4 && letters[0] == 'R' && letters[3] == 'A' {
        assert(letters =~= seq!['R', 'G', 'B', 'A']);
    }
    assert(seq!['R', 'G', 'B', 'A'][0] == 'R' && seq!['R', 'G', 'B', 'A'][3] == 'A');
    assert(seq!['B', 'G', 'R', 'A'][0] == 'B' && seq!['B', 'G', 'R', 'A'][3] == 'A');
    assert(seq!['R', 'G', 'B', 'x'][0] == 'R' && seq!['R', 'G', 'B', 'x'][3] == 'x');
}

/// What is drawn as a background.
pub open spec fn background_rects(
    background: SkiaCompositorBackground,
    canvas: (i32, i32),
    frame: (i32, i32),
) -> Seq<ColoredRect> {
    let filled = |color: BackgroundColor|
        seq![ColoredRect { x: 0, y: 0, width: frame.0, height: frame.1, color }];
    match background {
        SkiaCompositorBackground::Checker => checker_columns(
            squares_along(canvas.0),
            squares_along(canvas.1),
        ),
        SkiaCompositorBackground::Black => filled(BackgroundColor::Black),
        SkiaCompositorBackground::White => filled(BackgroundColor::White),
        SkiaCompositorBackground::Transparent => filled(BackgroundColor::Transparent),
    }
}

/// A background of one colour covers every point of the frame and nothing else, in its own colour; the
/// size of the canvas matters to the checkerboard alone.
pub proof fn law_backgrounds_cover_the_frame(
    background: SkiaCompositorBackground,
    canvas: (i32, i32),
    other: (i32, i32),
    frame: (i32, i32),
    x: int,
    y: int,
)
    requires
        background != SkiaCompositorBackground::Checker,
    ensures
        ({
            let rects = background_rects(background, canvas, frame);
            &&& rects.len() == 1
            &&& covers(rects[0], x, y) <==> 0 <= x < frame.0 && 0 <= y < frame.1
            &&& rects[0].color == BackgroundColor::Black <==> background
                == SkiaCompositorBackground::Black
            &&& rects[0].color == BackgroundColor::White <==> background
                == SkiaCompositorBackground::White
            &&& rects[0].color == BackgroundColor::Transparent <==> background
                == SkiaCompositorBackground::Transparent
            &&& rects == background_rects(background, other, frame)
        }),
        background_rects(SkiaCompositorBackground::Checker, canvas, frame) == background_rects(
            SkiaCompositorBackground::Checker,
            canvas,
            other,
        ),
{
}

} // verus!
