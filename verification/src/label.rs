//! The label model: placed content plus geometry, rendered into a command
//! sequence through the command model and the raster codec.

use vstd::prelude::*;

use crate::command::{CommandSequence, PostPrintAction, ZplCommand};
use crate::command::{BackfeedSequence, MediaTracking, MediaType};
use crate::image::{spec_z64_ok, spec_z64_too_large, EncodeError, SerializedImage};
use crate::raster::Raster;

verus! {

/// A length, either in raw device dots or in thousandths of a millimetre;
/// the latter resolves to dots only once the device's dots-per-millimetre is
/// known.
#[derive(Clone, Copy)]
pub enum Unit {
    /// Raw device dots.
    Dots(u32),
    /// Thousandths of a millimetre.
    Millimetres(i32),
}

/// One placed content item. Vector content is rasterized by an external
/// collaborator before it reaches the label, so an item is either a
/// grayscale raster or a QR payload the device renders itself.
#[derive(Clone)]
pub enum LabelContent {
    /// A raster already sized to its target dot dimensions.
    Image { raster: Raster, x: Unit, y: Unit },
    /// A QR payload rendered by the device.
    QrCode { content: String, x: Unit, y: Unit, zoom: u32 },
}

/// A label: placed content and the geometry to render it against. Width and
/// height are in whole millimetres.
#[derive(Clone)]
pub struct Label {
    pub content: Vec<LabelContent>,
    pub width: u32,
    pub height: u32,
    /// Print resolution in dots per millimetre.
    pub dpmm: u32,
}

/// How a label is printed.
pub struct PrintOptions {
    pub copies: u32,
    pub calibration: Option<PrintCalibration>,
}

/// A configured home offset applied before the content.
pub struct PrintCalibration {
    /// Offset of the label towards the right, in label units.
    pub home_x: Unit,
}

impl Default for PrintOptions {
    fn default() -> (r: Self)
        ensures
            r.copies == 0,
            r.calibration is None,
    {
        PrintOptions { copies: 0, calibration: None }
    }
}

/// A unit resolved to unsigned dots: raw dots pass through; millimetres
/// scale by the resolution, truncated, negative lengths clamping to zero and
/// overlong ones to the largest dot count.
pub open spec fn spec_unit_to_dots(dpmm: u32, u: Unit) -> u32 {
    match u {
        Unit::Dots(d) => d,
        Unit::Millimetres(th) => if th <= 0 {
            0u32
        } else if th * dpmm / 1000 > u32::MAX {
            u32::MAX
        } else {
            (th * dpmm / 1000) as u32
        },
    }
}

/// A unit resolved to signed dots: raw dots clamp to the largest signed
/// value; millimetres scale by the resolution, truncated toward zero,
/// clamping at the signed extremes.
pub open spec fn spec_signed_unit_to_dots(dpmm: u32, u: Unit) -> i32 {
    match u {
        Unit::Dots(d) => if d > i32::MAX {
            i32::MAX
        } else {
            d as i32
        },
        Unit::Millimetres(th) => {
            let magnitude = (if th < 0 {
                -(th as int)
            } else {
                th as int
            }) * dpmm / 1000;
            if th < 0 {
                if magnitude > 0x8000_0000 {
                    i32::MIN
                } else {
                    (-magnitude) as i32
                }
            } else {
                if magnitude > i32::MAX {
                    i32::MAX
                } else {
                    magnitude as i32
                }
            }
        },
    }
}

/// The product of a 32-bit magnitude and a 32-bit factor fits in 64 bits.
proof fn lemma_mul_mag_fits(a: int, b: int)
    by (nonlinear_arith)
    requires
        0 <= a <= 0x8000_0000,
        0 <= b < 0x1_0000_0000,
    ensures
        0 <= a * b <= 0x8000_0000_0000_0000,
{
}

impl Label {
    /// An empty label of the given geometry.
    pub fn new(width: u32, height: u32, dpmm: u32) -> (r: Label)
        ensures
            r.content@.len() == 0,
            r.width == width,
            r.height == height,
            r.dpmm == dpmm,
    {
        Label { content: Vec::new(), width, height, dpmm }
    }

    /// Resolves a unit to unsigned device dots at this label's resolution.
    pub fn unit_to_dots(&self, u: &Unit) -> (r: u32)
        ensures
            r == spec_unit_to_dots(self.dpmm, *u),
    {
        match u {
            Unit::Dots(d) => *d,
            Unit::Millimetres(th) => {
                if *th <= 0 {
                    0
                } else {
                    proof {
                        lemma_mul_mag_fits(*th as int, self.dpmm as int);
                    }
                    let v: u64 = (*th as u64) * (self.dpmm as u64) / 1000;
                    if v > 0xFFFF_FFFFu64 {
                        u32::MAX
                    } else {
                        v as u32
                    }
                }
            },
        }
    }

    /// Resolves a unit to signed device dots at this label's resolution.
    pub fn signed_unit_to_dots(&self, u: &Unit) -> (r: i32)
        ensures
            r == spec_signed_unit_to_dots(self.dpmm, *u),
    {
        match u {
            Unit::Dots(d) => {
                if *d > 0x7FFF_FFFFu32 {
                    i32::MAX
                } else {
                    *d as i32
                }
            },
            Unit::Millimetres(th) => {
                let negative = *th < 0;
                let mag: u64 = if *th == i32::MIN {
                    0x8000_0000u64
                } else if *th < 0 {
                    (-*th) as u64
                } else {
                    *th as u64
                };
                proof {
                    lemma_mul_mag_fits(mag as int, self.dpmm as int);
                }
                let scaled: u64 = mag * (self.dpmm as u64) / 1000;
                if negative {
                    if scaled > 0x8000_0000u64 {
                        i32::MIN
                    } else if scaled == 0x8000_0000u64 {
                        i32::MIN
                    } else {
                        -(scaled as i32)
                    }
                } else {
                    if scaled > 0x7FFF_FFFFu64 {
                        i32::MAX
                    } else {
                        scaled as i32
                    }
                }
            },
        }
    }
}

/// How many commands one content item renders to.
pub open spec fn spec_item_len(item: LabelContent) -> int {
    match item {
        LabelContent::Image { .. } => 2,
        LabelContent::QrCode { .. } => 3,
    }
}

/// What the commands rendered for one content item hold: a move to the
/// item's resolved origin, then the item's body — an embedded-graphics
/// command for a raster, or the QR mode and data fields for a QR payload.
pub open spec fn spec_render_item_ok(dpmm: u32, item: LabelContent, cmds: Seq<ZplCommand>) -> bool {
    match item {
        LabelContent::Image { raster, x, y } => {
            &&& cmds.len() == 2
            &&& cmds[0] == ZplCommand::MoveOrigin(
                spec_unit_to_dots(dpmm, x),
                spec_unit_to_dots(dpmm, y),
            )
            &&& match cmds[1] {
                ZplCommand::RenderImage(s) => spec_z64_ok(raster, s),
                _ => false,
            }
        },
        LabelContent::QrCode { content, x, y, zoom } => {
            &&& cmds.len() == 3
            &&& cmds[0] == ZplCommand::MoveOrigin(
                spec_unit_to_dots(dpmm, x),
                spec_unit_to_dots(dpmm, y),
            )
            &&& cmds[1] == (ZplCommand::FieldModeQRCode { zoom })
            &&& match cmds[2] {
                ZplCommand::FieldData(d) => d@ == "QA,"@ + content@,
                _ => false,
            }
        },
    }
}

/// What a rendered command sequence holds for a list of content items, in
/// order.
pub open spec fn spec_render_ok(dpmm: u32, items: Seq<LabelContent>, out: Seq<ZplCommand>) -> bool
    decreases items.len(),
{
    if items.len() == 0 {
        out.len() == 0
    } else {
        let n0 = spec_item_len(items[0]);
        &&& out.len() >= n0
        &&& spec_render_item_ok(dpmm, items[0], out.take(n0))
        &&& spec_render_ok(dpmm, items.drop_first(), out.skip(n0))
    }
}

/// Appending the commands of one more item to a rendered sequence renders
/// the extended item list.
proof fn lemma_render_push(
    dpmm: u32,
    items: Seq<LabelContent>,
    out: Seq<ZplCommand>,
    item: LabelContent,
    cmds: Seq<ZplCommand>,
)
    requires
        spec_render_ok(dpmm, items, out),
        spec_render_item_ok(dpmm, item, cmds),
    ensures
        spec_render_ok(dpmm, items.push(item), out + cmds),
    decreases items.len(),
{
    if items.len() == 0 {
        assert(out + cmds =~= cmds);
        assert(items.push(item)[0] == item);
        assert(items.push(item).drop_first() =~= Seq::<LabelContent>::empty());
        let n0 = spec_item_len(item);
        assert(cmds.len() == n0);
        assert(cmds.take(n0) =~= cmds);
        assert(cmds.skip(n0) =~= Seq::<ZplCommand>::empty());
        assert(spec_render_ok(dpmm, items.push(item).drop_first(), (out + cmds).skip(n0)));
        assert(spec_render_ok(dpmm, items.push(item), out + cmds));
    } else {
        let n0 = spec_item_len(items[0]);
        lemma_render_push(dpmm, items.drop_first(), out.skip(n0), item, cmds);
        assert(items.push(item)[0] == items[0]);
        assert(items.push(item).drop_first() =~= items.drop_first().push(item));
        assert((out + cmds).take(n0) =~= out.take(n0));
        assert((out + cmds).skip(n0) =~= out.skip(n0) + cmds);
        assert(spec_render_item_ok(dpmm, items.push(item)[0], (out + cmds).take(n0)));
        assert(spec_render_ok(dpmm, items.push(item).drop_first(), (out + cmds).skip(n0)));
        assert(spec_render_ok(dpmm, items.push(item), out + cmds));
    }
}

/// Why a label could not be rendered.
#[derive(Clone, PartialEq, Eq, Structural, Debug)]
pub enum RenderError {
    /// A raster's serialized form would not fit the wire format's fields.
    ImageTooLarge,
}

/// Whether some content item's raster is too large to serialize.
pub open spec fn spec_some_item_too_large(items: Seq<LabelContent>) -> bool {
    exists|i: int|
        0 <= i < items.len() && match #[trigger] items[i] {
            LabelContent::Image { raster, .. } => spec_z64_too_large(raster),
            _ => false,
        }
}

impl Label {
    /// Renders the content, in order, into the command sequence that draws
    /// it: for each item a move to its resolved origin, then its body.
    /// Fails only when a raster cannot be serialized.
    pub fn render(&self) -> (r: Result<CommandSequence, RenderError>)
        requires
            forall|i: int|
                0 <= i < self.content@.len() ==> match #[trigger] self.content@[i] {
                    LabelContent::Image { raster, .. } => raster.wf(),
                    _ => true,
                },
        ensures
            match r {
                Ok(seq) => spec_render_ok(self.dpmm, self.content@, seq.0@),
                Err(e) => e == RenderError::ImageTooLarge,
            },
            r is Err <==> spec_some_item_too_large(self.content@),
    {
        let mut out: Vec<ZplCommand> = Vec::new();
        let mut i: usize = 0;
        proof {
            assert(self.content@.take(0int) =~= Seq::<LabelContent>::empty());
        }
        while i < self.content.len()
            invariant
                0 <= i <= self.content@.len(),
                spec_render_ok(self.dpmm, self.content@.take(i as int), out@),
                forall|k: int|
                    0 <= k < i ==> match #[trigger] self.content@[k] {
                        LabelContent::Image { raster, .. } => !spec_z64_too_large(raster),
                        _ => true,
                    },
                forall|k: int|
                    0 <= k < self.content@.len() ==> match #[trigger] self.content@[k] {
                        LabelContent::Image { raster, .. } => raster.wf(),
                        _ => true,
                    },
            decreases self.content@.len() - i,
        {
            let ghost prev = out@;
            let ghost items = self.content@.take(i as int);
            match &self.content[i] {
                LabelContent::Image { raster, x, y } => {
                    let serialized = match SerializedImage::new_z64(raster) {
                        Ok(s) => s,
                        Err(_) => {
                            return Err(RenderError::ImageTooLarge);
                        },
                    };
                    out.push(ZplCommand::MoveOrigin(self.unit_to_dots(x), self.unit_to_dots(y)));
                    out.push(ZplCommand::RenderImage(serialized));
                    proof {
                        let cmds = out@.skip(prev.len() as int);
                        assert(cmds =~= seq![out@[prev.len() as int], out@[prev.len() as int + 1]]);
                        assert(spec_render_item_ok(self.dpmm, self.content@[i as int], cmds));
                        lemma_render_push(self.dpmm, items, prev, self.content@[i as int], cmds);
                        assert(items.push(self.content@[i as int]) =~= self.content@.take(
                            i as int + 1,
                        ));
                        assert(prev + cmds =~= out@);
                    }
                },
                LabelContent::QrCode { content, x, y, zoom } => {
                    out.push(ZplCommand::MoveOrigin(self.unit_to_dots(x), self.unit_to_dots(y)));
                    out.push(ZplCommand::FieldModeQRCode { zoom: *zoom });
                    let mut data = "QA,".to_owned();
                    data.append(content.as_str());
                    out.push(ZplCommand::FieldData(data));
                    proof {
                        let cmds = out@.skip(prev.len() as int);
                        assert(cmds =~= seq![
                            out@[prev.len() as int],
                            out@[prev.len() as int + 1],
                            out@[prev.len() as int + 2],
                        ]);
                        assert(spec_render_item_ok(self.dpmm, self.content@[i as int], cmds));
                        lemma_render_push(self.dpmm, items, prev, self.content@[i as int], cmds);
                        assert(items.push(self.content@[i as int]) =~= self.content@.take(
                            i as int + 1,
                        ));
                        assert(prev + cmds =~= out@);
                    }
                },
            }
            i = i + 1;
        }
        proof {
            assert(self.content@.take(self.content@.len() as int) =~= self.content@);
            assert(!spec_some_item_too_large(self.content@));
        }
        Ok(CommandSequence(out))
    }
}

/// The fixed configuration commands that precede every print: delimiter and
/// prefix configuration, encoding, media defaults, darkness, speed, and the
/// adjustment offsets, bracketed as their own label.
pub open spec fn spec_preamble() -> Seq<ZplCommand> {
    seq![
        ZplCommand::SetDelimiter(','),
        ZplCommand::SetControlCommandPrefix('~'),
        ZplCommand::SetFormatCommandPrefix('^'),
        ZplCommand::StartLabel,
        ZplCommand::SetEncoding(28),
        ZplCommand::SetTearOffPosition(0isize),
        ZplCommand::SetVerticalShift(0isize),
        ZplCommand::SetMediaType(MediaType::Transfer),
        ZplCommand::SetMediaTracking(MediaTracking::NonContinuousWebSensing),
        ZplCommand::SetBackfeedSequence(BackfeedSequence::Default),
        ZplCommand::SetHome(0, 0),
        ZplCommand::SetDarkness(25),
        ZplCommand::SetHalfDensity(false),
        ZplCommand::SetSpeed { print: 4, slew: 4 },
        ZplCommand::PersistConfiguration,
        ZplCommand::SetInverted(false),
        ZplCommand::SetVerticalShift(12isize),
        ZplCommand::SetTearOffPosition(-20isize),
        ZplCommand::EndLabel,
    ]
}

/// The fixed configuration commands that precede every print.
pub fn make_preamble() -> (r: CommandSequence)
    ensures
        r.0@ == spec_preamble(),
{
    let mut v: Vec<ZplCommand> = Vec::new();
    v.push(ZplCommand::SetDelimiter(','));
    v.push(ZplCommand::SetControlCommandPrefix('~'));
    v.push(ZplCommand::SetFormatCommandPrefix('^'));
    v.push(ZplCommand::StartLabel);
    v.push(ZplCommand::SetEncoding(28));
    v.push(ZplCommand::SetTearOffPosition(0));
    v.push(ZplCommand::SetVerticalShift(0));
    v.push(ZplCommand::SetMediaType(MediaType::Transfer));
    v.push(ZplCommand::SetMediaTracking(MediaTracking::NonContinuousWebSensing));
    v.push(ZplCommand::SetBackfeedSequence(BackfeedSequence::Default));
    v.push(ZplCommand::SetHome(0, 0));
    v.push(ZplCommand::SetDarkness(25));
    v.push(ZplCommand::SetHalfDensity(false));
    v.push(ZplCommand::SetSpeed { print: 4, slew: 4 });
    v.push(ZplCommand::PersistConfiguration);
    v.push(ZplCommand::SetInverted(false));
    v.push(ZplCommand::SetVerticalShift(12));
    v.push(ZplCommand::SetTearOffPosition(-20));
    v.push(ZplCommand::EndLabel);
    proof {
        assert(v@ =~= spec_preamble());
    }
    CommandSequence(v)
}

/// The label-level header of a print: label start, post-print policy, the
/// label's dot dimensions, and a zero horizontal shift.
pub open spec fn spec_print_header(label: Label) -> Seq<ZplCommand> {
    seq![
        ZplCommand::StartLabel,
        ZplCommand::SetPostPrintAction(PostPrintAction::Cut),
        ZplCommand::SetPrintWidth((label.width * label.dpmm) as u32),
        ZplCommand::SetLabelLength((label.height * label.dpmm) as u32),
        ZplCommand::SetHorizontalShift(0),
    ]
}

/// The commands the calibration option adds, if any.
pub open spec fn spec_print_calibration(label: Label, options: PrintOptions) -> Seq<ZplCommand> {
    match options.calibration {
        Some(c) => seq![
            ZplCommand::SetVerticalShift(spec_signed_unit_to_dots(label.dpmm, c.home_x) as isize),
        ],
        None => seq![],
    }
}

/// The print footer: quantity with cut policy, then label end.
pub open spec fn spec_print_footer(options: PrintOptions) -> Seq<ZplCommand> {
    seq![
        ZplCommand::PrintQuantity {
            total: options.copies,
            pause_and_cut_after: options.copies,
            replicates_per_serial: options.copies,
            cut_only: true,
        },
        ZplCommand::EndLabel,
    ]
}

impl Label {
    /// Wraps the rendered content with the fixed preamble, the label header,
    /// the optional calibration offset, and the quantity footer.
    pub fn print(&self, options: &PrintOptions) -> (r: Result<CommandSequence, RenderError>)
        requires
            self.width * self.dpmm <= u32::MAX,
            self.height * self.dpmm <= u32::MAX,
            forall|i: int|
                0 <= i < self.content@.len() ==> match #[trigger] self.content@[i] {
                    LabelContent::Image { raster, .. } => raster.wf(),
                    _ => true,
                },
        ensures
            match r {
                Ok(seq) => {
                    let head = spec_preamble() + spec_print_header(*self) + spec_print_calibration(
                        *self,
                        *options,
                    );
                    let foot = spec_print_footer(*options);
                    &&& seq.0@.len() >= head.len() + foot.len()
                    &&& seq.0@.take(head.len() as int) == head
                    &&& seq.0@.skip(seq.0@.len() - foot.len()) == foot
                    &&& spec_render_ok(
                        self.dpmm,
                        self.content@,
                        seq.0@.subrange(head.len() as int, seq.0@.len() - foot.len()),
                    )
                },
                Err(e) => e == RenderError::ImageTooLarge,
            },
            r is Err <==> spec_some_item_too_large(self.content@),
    {
        let rendered = match self.render() {
            Ok(seq) => seq,
            Err(e) => {
                return Err(e);
            },
        };
        let mut commands = make_preamble();
        commands.push(ZplCommand::StartLabel);
        commands.push(ZplCommand::SetPostPrintAction(PostPrintAction::Cut));
        commands.push(ZplCommand::SetPrintWidth(self.width * self.dpmm));
        commands.push(ZplCommand::SetLabelLength(self.height * self.dpmm));
        commands.push(ZplCommand::SetHorizontalShift(0));
        match &options.calibration {
            Some(calib) => {
                let home_x = self.signed_unit_to_dots(&calib.home_x);
                commands.push(ZplCommand::SetVerticalShift(home_x as isize));
            },
            None => {},
        }
        let ghost head = spec_preamble() + spec_print_header(*self) + spec_print_calibration(
            *self,
            *options,
        );
        proof {
            assert(commands.0@ =~= head);
        }
        commands.append(rendered);
        commands.push(
            ZplCommand::PrintQuantity {
                total: options.copies,
                pause_and_cut_after: options.copies,
                replicates_per_serial: options.copies,
                cut_only: true,
            },
        );
        commands.push(ZplCommand::EndLabel);
        proof {
            let total = commands.0@;
            let foot = spec_print_footer(*options);
            assert(total.take(head.len() as int) =~= head);
            assert(total.skip(total.len() - foot.len()) =~= foot);
            assert(total.subrange(head.len() as int, total.len() - foot.len()) =~= rendered.0@);
        }
        Ok(commands)
    }
}

} // verus!
