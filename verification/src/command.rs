//! The wire vocabulary: a closed set of command kinds, their exact textual
//! encoding, and the number of response lines each kind provokes.
//!
//! Encoding is total over the command set and deterministic: the encoded
//! text is a function of the command value alone.

use vstd::prelude::*;

use crate::image::{Compression, SerializedImage};
use crate::text::{
    dec_i64, dec_pad3, dec_pad4, dec_signed4, dec_u64, hex4, push_char, spec_dec_int,
    spec_dec_nat, spec_hex4, spec_signed_dec4, spec_zero_pad,
};

verus! {

/// What the device does with a finished label.
#[derive(Clone)]
pub enum PostPrintAction {
    /// Present only, let the user tear off.
    TearOff,
    /// Present and cut.
    Cut,
}

/// How the colorant reaches the label.
#[derive(Clone)]
pub enum MediaType {
    /// Color is in the label, turning dark on heating.
    Direct,
    /// Color in a separate color strip.
    Transfer,
}

/// When the label stock is pulled back between labels.
#[derive(Clone)]
pub enum BackfeedSequence {
    /// Full backfeed after printing and cutting.
    AfterPrinting,
    /// No backfeed after printing and cutting, full backfeed before printing
    /// the next label.
    BeforePrinting,
    /// The device default: most of the backfeed after printing.
    Default,
    /// No backfeed.
    Off,
    /// An explicit percentage, ten to ninety; the device rounds values not
    /// divisible by ten.
    Percent(u8),
}

/// How the device detects label separation.
#[derive(Clone)]
pub enum MediaTracking {
    /// Continuous media; label size is set up separately.
    Continuous,
    /// Continuous media, variable length.
    ContinuousVariableLength,
    /// Non-continuous media, web (gap) sensing.
    NonContinuousWebSensing,
    /// Non-continuous media with a printed mark at a constant vertical
    /// offset, in dots, from the point of separation.
    NonContinuousMarked(i16),
    /// Detect the media type during calibration.
    Autodetect,
}

/// One command of the protocol.
#[derive(Clone)]
pub enum ZplCommand {
    /// Literal command text, with an explicit count of response lines to
    /// read back, used for escape-hatch commands without a structured
    /// variant.
    Raw { command: String, response_lines: u32 },
    StartLabel,
    EndLabel,
    PersistConfiguration,
    /// Change the delimiter character that separates parameter values.
    SetDelimiter(char),
    /// Change the control command prefix.
    SetControlCommandPrefix(char),
    /// Change the format command prefix.
    SetFormatCommandPrefix(char),
    /// Change when label stock is pulled back between labels.
    SetBackfeedSequence(BackfeedSequence),
    /// Set the media type and how to detect label separation.
    SetMediaTracking(MediaTracking),
    /// Set print intensity.
    SetDarkness(usize),
    SetEncoding(usize),
    SetInverted(bool),
    SetHalfDensity(bool),
    SetHome(u32, u32),
    SetSpeed { print: usize, slew: usize },
    SetMediaType(MediaType),
    SetPrintWidth(u32),
    SetLabelLength(u32),
    SetPostPrintAction(PostPrintAction),
    SetHorizontalShift(usize),
    /// Move the label content vertically relative to the upper edge of the
    /// label.
    SetVerticalShift(isize),
    SetTearOffPosition(isize),
    /// Mirror the label vertically.
    SetMirrored(bool),
    /// Rotate the label by 180 degrees.
    SetFlipped(bool),
    MoveOrigin(u32, u32),
    PrintQuantity {
        total: u32,
        pause_and_cut_after: u32,
        replicates_per_serial: u32,
        cut_only: bool,
    },
    RenderImage(SerializedImage),
    FieldOrigin(u32, u32),
    FieldData(String),
    FieldModeQRCode { zoom: u32 },
    RequestHostIdentification,
    RequestHostRamStatus,
    RequestHostStatus,
}

/// The exact text of the backfeed parameter.
pub open spec fn spec_encode_backfeed(b: BackfeedSequence) -> Seq<char> {
    match b {
        BackfeedSequence::AfterPrinting => "A"@,
        BackfeedSequence::BeforePrinting => "B"@,
        BackfeedSequence::Default => "N"@,
        BackfeedSequence::Off => "O"@,
        BackfeedSequence::Percent(p) => spec_dec_nat(p as nat),
    }
}

/// The exact text of the media tracking parameter.
pub open spec fn spec_encode_tracking(t: MediaTracking) -> Seq<char> {
    match t {
        MediaTracking::Continuous => "N"@,
        MediaTracking::ContinuousVariableLength => "V"@,
        MediaTracking::NonContinuousWebSensing => "W"@,
        MediaTracking::NonContinuousMarked(offset) => "M,"@ + spec_dec_int(offset as int),
        MediaTracking::Autodetect => "A"@,
    }
}

/// The exact text of the embedded-graphics command for a serialized image.
pub open spec fn spec_encode_image(img: SerializedImage) -> Seq<char> {
    match img {
        SerializedImage::AsciiHex { byte_count, total_field_count, bytes_per_row, data } => {
            "^GFA,"@ + spec_dec_nat(byte_count as nat) + ","@ + spec_dec_nat(
                total_field_count as nat,
            ) + ","@ + spec_dec_nat(bytes_per_row as nat) + ","@ + data@ + "^FS"@
        },
        SerializedImage::Compressed {
            byte_count,
            total_field_count,
            bytes_per_row,
            data,
            id,
            crc,
        } => {
            "^GFA,"@ + spec_dec_nat(byte_count as nat) + ","@ + spec_dec_nat(
                total_field_count as nat,
            ) + ","@ + spec_dec_nat(bytes_per_row as nat) + ",:"@ + id.spec_tag() + ":"@ + data@
                + ":"@ + spec_hex4(crc as nat) + "^FS"@
        },
    }
}

/// The exact text of one command.
pub open spec fn spec_encode(c: ZplCommand) -> Seq<char> {
    match c {
        ZplCommand::Raw { command, .. } => command@,
        ZplCommand::StartLabel => "^XA"@,
        ZplCommand::EndLabel => "^XZ"@,
        ZplCommand::PersistConfiguration => "^JUS"@,
        ZplCommand::SetDelimiter(d) => "~CD"@.push(d),
        ZplCommand::SetControlCommandPrefix(p) => "~CT"@.push(p),
        ZplCommand::SetFormatCommandPrefix(p) => "~CC"@.push(p),
        ZplCommand::SetBackfeedSequence(b) => "~JS"@ + spec_encode_backfeed(b),
        ZplCommand::SetMediaTracking(t) => "^MN"@ + spec_encode_tracking(t),
        ZplCommand::SetDarkness(e) => "~SD"@ + spec_dec_nat(e as nat),
        ZplCommand::SetEncoding(e) => "^CI"@ + spec_dec_nat(e as nat),
        ZplCommand::SetInverted(i) => "^LR"@ + if i { "Y"@ } else { "N"@ },
        ZplCommand::SetHalfDensity(d) => "^JM"@ + if d { "B"@ } else { "A"@ },
        ZplCommand::SetHome(x, y) => "^LH"@ + spec_dec_nat(x as nat) + ","@ + spec_dec_nat(
            y as nat,
        ),
        ZplCommand::SetSpeed { print, slew } => "^PR"@ + spec_dec_nat(print as nat) + ","@
            + spec_dec_nat(slew as nat),
        ZplCommand::SetMediaType(t) => "^MT"@ + match t {
            MediaType::Direct => "D"@,
            MediaType::Transfer => "T"@,
        },
        ZplCommand::SetPrintWidth(w) => "^PW"@ + spec_zero_pad(spec_dec_nat(w as nat), 3),
        ZplCommand::SetLabelLength(l) => "^LL"@ + spec_zero_pad(spec_dec_nat(l as nat), 4),
        ZplCommand::SetPostPrintAction(a) => "^MM"@ + match a {
            PostPrintAction::TearOff => "T"@,
            PostPrintAction::Cut => "C"@,
        },
        ZplCommand::SetHorizontalShift(s) => "^LS"@ + spec_dec_nat(s as nat),
        ZplCommand::SetVerticalShift(s) => "^LT"@ + spec_dec_int(s as int),
        ZplCommand::SetTearOffPosition(p) => "~TA"@ + spec_signed_dec4(p as int),
        ZplCommand::SetMirrored(e) => "^PM"@ + if e { "Y"@ } else { "N"@ },
        ZplCommand::SetFlipped(e) => "^PO"@ + if e { "I"@ } else { "N"@ },
        ZplCommand::MoveOrigin(x, y) => "^FO"@ + spec_dec_nat(x as nat) + ","@ + spec_dec_nat(
            y as nat,
        ),
        ZplCommand::PrintQuantity { total, pause_and_cut_after, replicates_per_serial, cut_only } => {
            "^PQ"@ + spec_dec_nat(total as nat) + ","@ + spec_dec_nat(pause_and_cut_after as nat)
                + ","@ + spec_dec_nat(replicates_per_serial as nat) + ","@ + if cut_only {
                "Y"@
            } else {
                "N"@
            }
        },
        ZplCommand::RenderImage(img) => spec_encode_image(img),
        ZplCommand::FieldOrigin(x, y) => "^FO"@ + spec_dec_nat(x as nat) + ","@ + spec_dec_nat(
            y as nat,
        ),
        ZplCommand::FieldData(data) => "^FD"@ + data@,
        ZplCommand::FieldModeQRCode { zoom } => "^BQN,2,"@ + spec_dec_nat(zoom as nat) + ",Q,7"@,
        ZplCommand::RequestHostIdentification => "~HI"@,
        ZplCommand::RequestHostRamStatus => "~HM"@,
        ZplCommand::RequestHostStatus => "~HS"@,
    }
}

/// How many response lines a command provokes.
pub open spec fn spec_response_lines(c: ZplCommand) -> int {
    match c {
        ZplCommand::RequestHostIdentification => 1,
        ZplCommand::RequestHostRamStatus => 1,
        ZplCommand::RequestHostStatus => 3,
        ZplCommand::Raw { response_lines, .. } => response_lines as int,
        _ => 0,
    }
}

/// Total response lines over a list of commands.
pub open spec fn spec_total_response_lines(s: Seq<ZplCommand>) -> int
    decreases s.len(),
{
    if s.len() == 0 {
        0
    } else {
        spec_response_lines(s[0]) + spec_total_response_lines(s.drop_first())
    }
}

pub proof fn lemma_total_response_lines_nonneg(s: Seq<ZplCommand>)
    ensures
        spec_total_response_lines(s) >= 0,
    decreases s.len(),
{
    if s.len() > 0 {
        lemma_total_response_lines_nonneg(s.drop_first());
    }
}

impl ZplCommand {
    /// How many lines of data to expect in response to this command.
    pub fn expected_response_lines(&self) -> (r: u32)
        ensures
            r as int == spec_response_lines(*self),
    {
        match self {
            ZplCommand::RequestHostIdentification => 1,
            ZplCommand::RequestHostRamStatus => 1,
            ZplCommand::RequestHostStatus => 3,
            ZplCommand::Raw { response_lines, .. } => *response_lines,
            _ => 0,
        }
    }

    /// The exact wire text of this command.
    pub fn encode(&self) -> (r: String)
        ensures
            r@ == spec_encode(*self),
    {
        match self {
            ZplCommand::Raw { command, .. } => command.clone(),
            ZplCommand::StartLabel => "^XA".to_owned(),
            ZplCommand::EndLabel => "^XZ".to_owned(),
            ZplCommand::PersistConfiguration => "^JUS".to_owned(),
            ZplCommand::SetDelimiter(d) => {
                let mut s = "~CD".to_owned();
                push_char(&mut s, *d);
                s
            },
            ZplCommand::SetControlCommandPrefix(p) => {
                let mut s = "~CT".to_owned();
                push_char(&mut s, *p);
                s
            },
            ZplCommand::SetFormatCommandPrefix(p) => {
                let mut s = "~CC".to_owned();
                push_char(&mut s, *p);
                s
            },
            ZplCommand::SetBackfeedSequence(b) => {
                let mut s = "~JS".to_owned();
                match b {
                    BackfeedSequence::AfterPrinting => s.append("A"),
                    BackfeedSequence::BeforePrinting => s.append("B"),
                    BackfeedSequence::Default => s.append("N"),
                    BackfeedSequence::Off => s.append("O"),
                    BackfeedSequence::Percent(p) => append_dec(&mut s, *p as u64),
                }
                s
            },
            ZplCommand::SetMediaTracking(t) => {
                let mut s = "^MN".to_owned();
                match t {
                    MediaTracking::Continuous => s.append("N"),
                    MediaTracking::ContinuousVariableLength => s.append("V"),
                    MediaTracking::NonContinuousWebSensing => s.append("W"),
                    MediaTracking::NonContinuousMarked(offset) => {
                        s.append("M,");
                        let d = dec_i64(*offset as i64);
                        s.append(d.as_str());
                    },
                    MediaTracking::Autodetect => s.append("A"),
                }
                s
            },
            ZplCommand::SetDarkness(e) => lit_dec("~SD", *e as u64),
            ZplCommand::SetEncoding(e) => lit_dec("^CI", *e as u64),
            ZplCommand::SetInverted(i) => {
                let mut s = "^LR".to_owned();
                s.append(if *i { "Y" } else { "N" });
                s
            },
            ZplCommand::SetHalfDensity(d) => {
                let mut s = "^JM".to_owned();
                s.append(if *d { "B" } else { "A" });
                s
            },
            ZplCommand::SetHome(x, y) => lit_dec_pair("^LH", *x as u64, *y as u64),
            ZplCommand::SetSpeed { print, slew } => lit_dec_pair("^PR", *print as u64, *slew as u64),
            ZplCommand::SetMediaType(t) => {
                let mut s = "^MT".to_owned();
                s.append(
                    match t {
                        MediaType::Direct => "D",
                        MediaType::Transfer => "T",
                    },
                );
                s
            },
            ZplCommand::SetPrintWidth(w) => {
                let mut s = "^PW".to_owned();
                let d = dec_pad3(*w as u64);
                s.append(d.as_str());
                s
            },
            ZplCommand::SetLabelLength(l) => {
                let mut s = "^LL".to_owned();
                let d = dec_pad4(*l as u64);
                s.append(d.as_str());
                s
            },
            ZplCommand::SetPostPrintAction(a) => {
                let mut s = "^MM".to_owned();
                s.append(
                    match a {
                        PostPrintAction::TearOff => "T",
                        PostPrintAction::Cut => "C",
                    },
                );
                s
            },
            ZplCommand::SetHorizontalShift(sh) => lit_dec("^LS", *sh as u64),
            ZplCommand::SetVerticalShift(sh) => {
                let mut s = "^LT".to_owned();
                let d = dec_i64(*sh as i64);
                s.append(d.as_str());
                s
            },
            ZplCommand::SetTearOffPosition(p) => {
                let mut s = "~TA".to_owned();
                let d = dec_signed4(*p as i64);
                s.append(d.as_str());
                s
            },
            ZplCommand::SetMirrored(e) => {
                let mut s = "^PM".to_owned();
                s.append(if *e { "Y" } else { "N" });
                s
            },
            ZplCommand::SetFlipped(e) => {
                let mut s = "^PO".to_owned();
                s.append(if *e { "I" } else { "N" });
                s
            },
            ZplCommand::MoveOrigin(x, y) => lit_dec_pair("^FO", *x as u64, *y as u64),
            ZplCommand::PrintQuantity {
                total,
                pause_and_cut_after,
                replicates_per_serial,
                cut_only,
            } => {
                let mut s = "^PQ".to_owned();
                append_dec(&mut s, *total as u64);
                s.append(",");
                append_dec(&mut s, *pause_and_cut_after as u64);
                s.append(",");
                append_dec(&mut s, *replicates_per_serial as u64);
                s.append(",");
                s.append(if *cut_only { "Y" } else { "N" });
                s
            },
            ZplCommand::RenderImage(img) => encode_image(img),
            ZplCommand::FieldOrigin(x, y) => lit_dec_pair("^FO", *x as u64, *y as u64),
            ZplCommand::FieldData(data) => {
                let mut s = "^FD".to_owned();
                s.append(data.as_str());
                s
            },
            ZplCommand::FieldModeQRCode { zoom } => {
                let mut s = "^BQN,2,".to_owned();
                append_dec(&mut s, *zoom as u64);
                s.append(",Q,7");
                s
            },
            ZplCommand::RequestHostIdentification => "~HI".to_owned(),
            ZplCommand::RequestHostRamStatus => "~HM".to_owned(),
            ZplCommand::RequestHostStatus => "~HS".to_owned(),
        }
    }
}

/// The exact wire text of the embedded-graphics command.
fn encode_image(img: &SerializedImage) -> (r: String)
    ensures
        r@ == spec_encode_image(*img),
{
    match img {
        SerializedImage::AsciiHex { byte_count, total_field_count, bytes_per_row, data } => {
            let mut s = "^GFA,".to_owned();
            append_dec(&mut s, *byte_count as u64);
            s.append(",");
            append_dec(&mut s, *total_field_count as u64);
            s.append(",");
            append_dec(&mut s, *bytes_per_row as u64);
            s.append(",");
            s.append(data.as_str());
            s.append("^FS");
            s
        },
        SerializedImage::Compressed {
            byte_count,
            total_field_count,
            bytes_per_row,
            data,
            id,
            crc,
        } => {
            let mut s = "^GFA,".to_owned();
            append_dec(&mut s, *byte_count as u64);
            s.append(",");
            append_dec(&mut s, *total_field_count as u64);
            s.append(",");
            append_dec(&mut s, *bytes_per_row as u64);
            s.append(",:");
            s.append(id.tag());
            s.append(":");
            s.append(data.as_str());
            s.append(":");
            let h = hex4(*crc);
            s.append(h.as_str());
            s.append("^FS");
            s
        },
    }
}

/// Appends the decimal text of `n` to `s`.
fn append_dec(s: &mut String, n: u64)
    ensures
        final(s)@ == old(s)@ + spec_dec_nat(n as nat),
{
    let d = dec_u64(n);
    s.append(d.as_str());
}

/// A literal prefix followed by one decimal field.
fn lit_dec(prefix: &str, n: u64) -> (r: String)
    ensures
        r@ == prefix@ + spec_dec_nat(n as nat),
{
    let mut s = prefix.to_owned();
    append_dec(&mut s, n);
    s
}

/// A literal prefix followed by two comma-separated decimal fields.
fn lit_dec_pair(prefix: &str, a: u64, b: u64) -> (r: String)
    ensures
        r@ == prefix@ + spec_dec_nat(a as nat) + ","@ + spec_dec_nat(b as nat),
{
    let mut s = prefix.to_owned();
    append_dec(&mut s, a);
    s.append(",");
    append_dec(&mut s, b);
    s
}

/// Total response lines over a slice of commands.
pub fn total_expected_response_lines(commands: &[ZplCommand]) -> (r: u32)
    requires
        spec_total_response_lines(commands@) <= u32::MAX,
    ensures
        r as int == spec_total_response_lines(commands@),
{
    let mut acc: u32 = 0;
    let mut i: usize = 0;
    proof {
        assert(commands@.skip(0) =~= commands@);
    }
    while i < commands.len()
        invariant
            0 <= i <= commands@.len(),
            acc as int + spec_total_response_lines(commands@.skip(i as int))
                == spec_total_response_lines(commands@),
            spec_total_response_lines(commands@) <= u32::MAX,
        decreases commands@.len() - i,
    {
        proof {
            assert(commands@.skip(i as int).drop_first() =~= commands@.skip(i as int + 1));
            assert(commands@.skip(i as int)[0] == commands@[i as int]);
            lemma_total_response_lines_nonneg(commands@.skip(i as int + 1));
        }
        let lines = commands[i].expected_response_lines();
        acc = acc + lines;
        i = i + 1;
    }
    proof {
        assert(commands@.skip(commands@.len() as int) =~= Seq::<ZplCommand>::empty());
    }
    acc
}

/// An ordered list of commands. Order is semantically significant: commands
/// are positional state mutations on the device.
pub struct CommandSequence(pub Vec<ZplCommand>);

/// The wire text of a command list: the individual encodings joined with a
/// newline.
pub open spec fn spec_encode_sequence(s: Seq<ZplCommand>) -> Seq<char>
    decreases s.len(),
{
    if s.len() == 0 {
        Seq::empty()
    } else if s.len() == 1 {
        spec_encode(s[0])
    } else {
        spec_encode(s[0]) + seq!['\n'] + spec_encode_sequence(s.drop_first())
    }
}

/// Appending a command extends the joined encoding by a newline (when the
/// list was not empty) and the command's own encoding.
pub proof fn lemma_encode_sequence_push(s: Seq<ZplCommand>, c: ZplCommand)
    ensures
        spec_encode_sequence(s.push(c)) == if s.len() == 0 {
            spec_encode(c)
        } else {
            spec_encode_sequence(s) + seq!['\n'] + spec_encode(c)
        },
    decreases s.len(),
{
    if s.len() == 0 {
        assert(s.push(c).len() == 1);
        assert(s.push(c)[0] == c);
    } else {
        lemma_encode_sequence_push(s.drop_first(), c);
        assert(s.push(c).drop_first() =~= s.drop_first().push(c));
        assert(s.push(c)[0] == s[0]);
        if s.len() == 1 {
            assert(s.drop_first().len() == 0);
            assert(spec_encode_sequence(s) == spec_encode(s[0]));
        }
    }
}

/// Encoding is deterministic: command sequences with equal content encode to
/// identical text, on every call.
pub proof fn lemma_encode_sequence_deterministic(a: Seq<ZplCommand>, b: Seq<ZplCommand>)
    requires
        a == b,
    ensures
        spec_encode_sequence(a) == spec_encode_sequence(b),
{
}

impl CommandSequence {
    /// Moves all commands of `c` to the end of this sequence.
    pub fn append(&mut self, mut c: Self)
        ensures
            final(self).0@ == old(self).0@ + c.0@,
    {
        self.0.append(&mut c.0);
    }

    /// Appends one command.
    pub fn push(&mut self, c: ZplCommand)
        ensures
            final(self).0@ == old(self).0@.push(c),
    {
        self.0.push(c);
    }

    /// Total response lines the device will send back for this sequence.
    pub fn expected_response_lines(&self) -> (r: u32)
        requires
            spec_total_response_lines(self.0@) <= u32::MAX,
        ensures
            r as int == spec_total_response_lines(self.0@),
    {
        total_expected_response_lines(self.0.as_slice())
    }

    /// The exact wire text of this sequence.
    pub fn encode(&self) -> (r: String)
        ensures
            r@ == spec_encode_sequence(self.0@),
    {
        let mut s = String::new();
        let mut i: usize = 0;
        while i < self.0.len()
            invariant
                0 <= i <= self.0@.len(),
                s@ == spec_encode_sequence(self.0@.take(i as int)),
            decreases self.0@.len() - i,
        {
            proof {
                lemma_encode_sequence_push(self.0@.take(i as int), self.0@[i as int]);
                assert(self.0@.take(i as int).push(self.0@[i as int]) =~= self.0@.take(
                    i as int + 1,
                ));
            }
            if i > 0 {
                s.append("\n");
            }
            let e = self.0[i].encode();
            s.append(e.as_str());
            proof {
                reveal_strlit("\n");
                if i == 0 {
                    assert(self.0@.take(0int).len() == 0);
                }
                assert(s@ =~= spec_encode_sequence(self.0@.take(i as int + 1)));
            }
            i = i + 1;
        }
        proof {
            assert(self.0@.take(self.0@.len() as int) =~= self.0@);
        }
        s
    }
}

} // verus!
