//! Encode and display information in a QR code.
//!
//! The encoding itself is done by the `qrcode` crate; [`Data`] keeps what it
//! produced (the modules of the code, row by row) and answers where the dark
//! modules lie.
use vstd::prelude::*;
use crate::layout::Class;

verus! {

/// The margin around the code, in modules.
pub const QUIET_ZONE: usize = 2;

/// The side of a module when no size is given, as the bits of an `f32` (4.0).
pub const DEFAULT_CELL_SIZE_BITS: u32 = 0x4080_0000;

/// The version of a QR code, which determines its size.
#[derive(Debug, Clone, Copy, PartialEq, Eq)]
pub enum Version {
    /// A normal QR code version, from 1 to 40.
    Normal(u8),
    /// A micro QR code version, from 1 to 4.
    Micro(u8),
}

/// The error correction level of a QR code: how much of it can be damaged
/// before its data is lost.
#[derive(Debug, Clone, Copy, PartialEq, Eq)]
pub enum ErrorCorrection {
    /// Low error correction: up to 7% of the code can be restored.
    Low,
    /// Medium error correction: up to 15%.
    Medium,
    /// Quartile error correction: up to 25%.
    Quartile,
    /// High error correction: up to 30%.
    High,
}

/// An error that occurred when encoding data in a QR code.
#[derive(Debug, Clone, Copy, PartialEq, Eq)]
pub enum Error {
    /// The data is too long to encode in a QR code for the chosen version.
    DataTooLong,
    /// The chosen version and error correction level combination is invalid.
    InvalidVersion,
    /// One or more characters in the data are not supported by the chosen
    /// version.
    UnsupportedCharacterSet,
    /// The chosen ECI designator is invalid; a valid one lies between 0 and
    /// 999999.
    InvalidEciDesignator,
    /// A character that does not belong to the character set was found.
    InvalidCharacter,
}

/// The versions that exist: normal ones from 1 to 40, micro ones from 1 to 4.
pub open spec fn valid_version(version: Version) -> bool {
    match version {
        Version::Normal(v) => 1 <= v <= 40,
        Version::Micro(v) => 1 <= v <= 4,
    }
}

/// The number of modules on a side of a code of the given version.
pub open spec fn version_width(version: Version) -> nat {
    match version {
        Version::Normal(v) => (4 * v + 17) as nat,
        Version::Micro(v) => (2 * v + 9) as nat,
    }
}

#[verifier::external_type_specification]
#[verifier::external_body]
pub struct ExQrCode(qrcode::QrCode);

#[verifier::external_type_specification]
#[verifier::external_body]
pub struct ExQrError(qrcode::types::QrError);

#[verifier::external_type_specification]
#[verifier::external_body]
pub struct ExEcLevel(qrcode::EcLevel);

/// The modules of an encoded code, row by row, `true` for a dark one.
pub uninterp spec fn qr_modules(code: qrcode::QrCode) -> Seq<bool>;

/// The number of modules on a side of an encoded code, quiet zone left out.
pub uninterp spec fn qr_width(code: qrcode::QrCode) -> nat;

/// What `qrcode::QrCode::with_error_correction_level` makes of `data` at
/// `level`, in the smallest normal version that holds it: the width and the
/// modules of the code, or the error it reports.
pub uninterp spec fn qr_auto(data: Seq<u8>, level: ErrorCorrection) -> Result<(nat, Seq<bool>), Error>;

/// What `qrcode::QrCode::with_version` makes of `data` in the given version
/// at `level`: the width and the modules of the code, or the error it reports.
pub uninterp spec fn qr_versioned(data: Seq<u8>, version: Version, level: ErrorCorrection) -> Result<(nat, Seq<bool>), Error>;

/// The width and modules of a successful encoding; the error of a failed one.
pub open spec fn outcome(r: Result<qrcode::QrCode, Error>) -> Result<(nat, Seq<bool>), Error> {
    match r {
        Ok(code) => Ok((qr_width(code), qr_modules(code))),
        Err(e) => Err(e),
    }
}

/// The `qrcode` level for an [`ErrorCorrection`], variant for variant.
#[verifier::external_body]
fn ec_level(level: ErrorCorrection) -> qrcode::EcLevel {
    match level {
        ErrorCorrection::Low => qrcode::EcLevel::L,
        ErrorCorrection::Medium => qrcode::EcLevel::M,
        ErrorCorrection::Quartile => qrcode::EcLevel::Q,
        ErrorCorrection::High => qrcode::EcLevel::H,
    }
}

/// The [`Error`] for a `qrcode` error, variant for variant.
#[verifier::external_body]
fn error_from(error: qrcode::types::QrError) -> Error {
    match error {
        qrcode::types::QrError::DataTooLong => Error::DataTooLong,
        qrcode::types::QrError::InvalidVersion => Error::InvalidVersion,
        qrcode::types::QrError::UnsupportedCharacterSet => Error::UnsupportedCharacterSet,
        qrcode::types::QrError::InvalidEciDesignator => Error::InvalidEciDesignator,
        qrcode::types::QrError::InvalidCharacter => Error::InvalidCharacter,
    }
}

/// Whether every normal version narrower than `width` modules fails to hold
/// `data` at `level`: `width` is that of the smallest version that holds it.
pub open spec fn no_smaller_version(data: Seq<u8>, level: ErrorCorrection, width: nat) -> bool {
    forall|v: u8|
        1 <= v && 4 * v + 17 < width ==> (#[trigger] qr_versioned(data, Version::Normal(v), level)) is Err
}

/// Encodes `data` with `qrcode::QrCode::with_error_correction_level`, which
/// picks the smallest normal version (1 to 40) that holds the data. Claimed:
/// the outcome is [`qr_auto`] of the arguments; a code has `4 v + 17`
/// modules on a side for its version `v`, and a module for each place of
/// its square grid; and encoding the data with `with_version` in any
/// smaller normal version fails (the version is found with the same
/// segmentation that `with_version` uses, whose encoded length exceeds the
/// capacity of every smaller version).
#[verifier::external_body]
fn encode_auto(data: &[u8], level: ErrorCorrection) -> (r: Result<qrcode::QrCode, Error>)
    ensures
        outcome(r) == qr_auto(data@, level),
        r matches Ok(code) ==> {
            &&& qr_modules(code).len() == qr_width(code) * qr_width(code)
            &&& 21 <= qr_width(code) <= 177
            &&& (qr_width(code) - 17) % 4 == 0
            &&& no_smaller_version(data@, level, qr_width(code))
        },
{
    qrcode::QrCode::with_error_correction_level(data, ec_level(level)).map_err(error_from)
}

/// Encodes `data` with `qrcode::QrCode::with_version`. Claimed: the outcome
/// is [`qr_versioned`] of the arguments; a version that does not exist gives
/// an error (the crate looks its capacity up in a table of the existing
/// versions, and fails without one); and a code has the width of its version
/// and a module for each place of its square grid. The micro version 0 with
/// data is left out: the crate then computes a negative bit count, which a
/// debug build refuses with a panic.
#[verifier::external_body]
fn encode_versioned(data: &[u8], version: Version, level: ErrorCorrection) -> (r: Result<qrcode::QrCode, Error>)
    requires
        version == Version::Micro(0) ==> data@.len() == 0,
    ensures
        outcome(r) == qr_versioned(data@, version, level),
        !valid_version(version) ==> r is Err,
        r matches Ok(code) ==> {
            &&& qr_width(code) == version_width(version)
            &&& qr_modules(code).len() == qr_width(code) * qr_width(code)
        },
{
    let version = match version {
        Version::Normal(v) => qrcode::Version::Normal(i16::from(v)),
        Version::Micro(v) => qrcode::Version::Micro(i16::from(v)),
    };
    qrcode::QrCode::with_version(data, version, ec_level(level)).map_err(error_from)
}

/// The width of a code, from `qrcode::QrCode::width`.
#[verifier::external_body]
fn code_width(code: &qrcode::QrCode) -> (r: usize)
    ensures
        r == qr_width(*code),
{
    code.width()
}

/// The modules of a code, from `qrcode::QrCode::into_colors`, each dark one
/// given as `true`.
#[verifier::external_body]
fn code_modules(code: qrcode::QrCode) -> (r: Vec<bool>)
    ensures
        r@ == qr_modules(code),
{
    code.into_colors().into_iter().map(|c| c == qrcode::Color::Dark).collect()
}

/// The data of a QR code: its modules, row by row, and its width.
pub struct Data {
    contents: Vec<bool>,
    width: usize,
}

impl View for Data {
    type V = (nat, Seq<bool>);

    closed spec fn view(&self) -> (nat, Seq<bool>) {
        (self.width as nat, self.contents@)
    }
}

/// The view of an encoding result.
pub open spec fn data_outcome(r: Result<Data, Error>) -> Result<(nat, Seq<bool>), Error> {
    match r {
        Ok(d) => Ok(d@),
        Err(e) => Err(e),
    }
}

/// The positions `(row, column)` of the dark modules among `modules`, laid
/// out `width` to a row, in order.
pub open spec fn dark_positions(modules: Seq<bool>, width: nat) -> Seq<(int, int)>
    decreases modules.len(),
{
    if modules.len() == 0 {
        Seq::empty()
    } else {
        let last = modules.len() - 1;
        let before = dark_positions(modules.drop_last(), width);
        if modules[last] {
            before.push((last / width as int, last % width as int))
        } else {
            before
        }
    }
}

/// Every dark module of a square code lies inside it: its row and column
/// are below the width.
pub proof fn lemma_dark_positions_inside(modules: Seq<bool>, width: nat)
    requires
        modules.len() == width * width,
    ensures
        forall|i: int|
            0 <= i < dark_positions(modules, width).len() ==> {
                let (row, column) = #[trigger] dark_positions(modules, width)[i];
                0 <= row < width && 0 <= column < width
            },
{
    lemma_dark_positions_below(modules, width, width * width);
}

proof fn lemma_dark_positions_below(modules: Seq<bool>, width: nat, bound: nat)
    requires
        modules.len() <= bound,
        bound == width * width,
    ensures
        forall|i: int|
            0 <= i < dark_positions(modules, width).len() ==> {
                let (row, column) = #[trigger] dark_positions(modules, width)[i];
                0 <= row < width && 0 <= column < width
            },
    decreases modules.len(),
{
    if modules.len() > 0 {
        let last = modules.len() - 1;
        lemma_dark_positions_below(modules.drop_last(), width, bound);
        assert(width > 0) by (nonlinear_arith)
            requires
                last >= 0,
                last < bound,
                bound == width * width,
        ;
        assert(0 <= last / (width as int) < width && 0 <= last % (width as int) < width) by (nonlinear_arith)
            requires
                0 <= last < width * width,
                width > 0,
        ;
        let before = dark_positions(modules.drop_last(), width);
        let all = dark_positions(modules, width);
        assert forall|i: int| 0 <= i < all.len() implies {
            let (row, column) = #[trigger] all[i];
            0 <= row < width && 0 <= column < width
        } by {
            if i < before.len() {
                assert(all[i] == before[i]);
            }
        }
    }
}

impl Data {
    #[verifier::type_invariant]
    spec fn square(&self) -> bool {
        self.contents@.len() == self.width * self.width
    }

    /// Creates a new [`Data`] with the provided data, at medium error
    /// correction, in the smallest version that holds it.
    pub fn new(data: &[u8]) -> (r: Result<Self, Error>)
        ensures
            data_outcome(r) == qr_auto(data@, ErrorCorrection::Medium),
            r matches Ok(d) ==> no_smaller_version(data@, ErrorCorrection::Medium, d@.0),
    {
        Self::with_error_correction(data, ErrorCorrection::Medium)
    }

    /// Creates a new [`Data`] with the provided data and error correction
    /// level, in the smallest version that holds it.
    pub fn with_error_correction(data: &[u8], error_correction: ErrorCorrection) -> (r: Result<Self, Error>)
        ensures
            data_outcome(r) == qr_auto(data@, error_correction),
            r matches Ok(d) ==> no_smaller_version(data@, error_correction, d@.0),
    {
        match encode_auto(data, error_correction) {
            Ok(code) => Ok(Self::build(code)),
            Err(e) => Err(e),
        }
    }

    /// Creates a new [`Data`] with the provided data, version and error
    /// correction level. A version that does not exist gives an error.
    pub fn with_version(data: &[u8], version: Version, error_correction: ErrorCorrection) -> (r: Result<Self, Error>)
        requires
            version == Version::Micro(0) ==> data@.len() == 0,
        ensures
            data_outcome(r) == qr_versioned(data@, version, error_correction),
            !valid_version(version) ==> r is Err,
            r matches Ok(d) ==> d@.0 == version_width(version),
    {
        match encode_versioned(data, version, error_correction) {
            Ok(code) => Ok(Self::build(code)),
            Err(e) => Err(e),
        }
    }

    fn build(code: qrcode::QrCode) -> (r: Self)
        requires
            qr_modules(code).len() == qr_width(code) * qr_width(code),
        ensures
            r@ == (qr_width(code), qr_modules(code)),
    {
        let width = code_width(&code);
        let contents = code_modules(code);
        Data { contents, width }
    }

    /// The number of modules on a side of the code, quiet zone left out.
    pub fn width(&self) -> (r: usize)
        ensures
            r == self@.0,
    {
        self.width
    }

    /// The number of modules on a side of the code with its quiet zone.
    pub fn side_length(&self) -> (r: usize)
        requires
            self@.0 + 2 * QUIET_ZONE <= usize::MAX,
        ensures
            r == self@.0 + 2 * QUIET_ZONE,
    {
        self.width + 2 * QUIET_ZONE
    }

    /// The positions `(row, column)` of the dark modules, row by row: the
    /// cells that are filled when the code is drawn.
    pub fn dark_cells(&self) -> (r: Vec<(usize, usize)>)
        ensures
            r@.len() == dark_positions(self@.1, self@.0).len(),
            forall|i: int|
                0 <= i < r@.len() ==> (r@[i].0 as int, r@[i].1 as int) == #[trigger] dark_positions(
                    self@.1,
                    self@.0,
                )[i],
    {
        proof {
            use_type_invariant(self);
        }
        let mut r: Vec<(usize, usize)> = Vec::new();
        let n = self.contents.len();
        let mut i: usize = 0;
        let mut row: usize = 0;
        let mut column: usize = 0;
        while i < n
            invariant
                n == self.contents@.len(),
                n == self.width * self.width,
                i <= n,
                self.width > 0 ==> (row == i as int / self.width as int && column == i as int
                    % self.width as int),
                r@.len() == dark_positions(self.contents@.take(i as int), self.width as nat).len(),
                forall|k: int|
                    0 <= k < r@.len() ==> (r@[k].0 as int, r@[k].1 as int) == #[trigger] dark_positions(
                        self.contents@.take(i as int),
                        self.width as nat,
                    )[k],
            decreases n - i,
        {
            proof {
                let s = self.contents@.take(i + 1);
                assert(s.drop_last() =~= self.contents@.take(i as int));
                assert(s[i as int] == self.contents@[i as int]);
                if self.width == 0 {
                    assert(n == 0) by (nonlinear_arith)
                        requires
                            n == self.width * self.width,
                            self.width == 0,
                    ;
                }
                lemma_div_mod_step(i as int, self.width as int);
            }
            if self.contents[i] {
                r.push((row, column));
            }
            i += 1;
            column += 1;
            if column == self.width {
                column = 0;
                row += 1;
            }
        }
        assert(self.contents@.take(n as int) =~= self.contents@);
        r
    }
}

proof fn lemma_div_mod_step(i: int, w: int)
    requires
        i >= 0,
        w > 0,
    ensures
        (i % w + 1 == w) ==> ((i + 1) / w == i / w + 1 && (i + 1) % w == 0),
        (i % w + 1 != w) ==> ((i + 1) / w == i / w && (i + 1) % w == i % w + 1),
{
    assert(i == w * (i / w) + i % w) by (nonlinear_arith)
        requires
            w > 0,
    ;
    assert(0 <= i % w < w) by (nonlinear_arith)
        requires
            w > 0,
    ;
    let q = i / w;
    let m = i % w;
    assert((q + 1) * w == q * w + w) by (nonlinear_arith);
    assert(w * q == q * w) by (nonlinear_arith);
    if i % w + 1 == w {
        vstd::arithmetic::div_mod::lemma_fundamental_div_mod_converse(i + 1, w, i / w + 1, 0);
    } else {
        vstd::arithmetic::div_mod::lemma_fundamental_div_mod_converse(i + 1, w, i / w, i % w + 1);
    }
}

/// A widget that displays the data of a QR code.
pub struct QRCode<'a, Style> {
    data: &'a Data,
    cell_size: u32,
    class: Class<Style>,
}

impl<'a, Style> QRCode<'a, Style> {
    /// Creates a new [`QRCode`] for the given [`Data`], with modules of the
    /// default size.
    pub fn new(data: &'a Data) -> (r: Self)
        ensures
            r.shown() == data,
            r.cell_size_bits() == DEFAULT_CELL_SIZE_BITS,
            r.style_class() == Class::<Style>::Default,
    {
        QRCode { data, cell_size: DEFAULT_CELL_SIZE_BITS, class: Class::Default }
    }

    /// The data shown.
    pub closed spec fn shown(&self) -> &'a Data {
        self.data
    }

    /// The side of a module, as the bits of an `f32`.
    pub closed spec fn cell_size_bits(&self) -> u32 {
        self.cell_size
    }

    /// The style class.
    pub closed spec fn style_class(&self) -> Class<Style> {
        self.class
    }

    /// Sets the side of a module, given as the bits of an `f32`.
    pub fn cell_size(self, cell_size: u32) -> (r: Self)
        ensures
            r.shown() == self.shown(),
            r.cell_size_bits() == cell_size,
            r.style_class() == self.style_class(),
    {
        QRCode { cell_size, ..self }
    }

    /// Sets the style class.
    pub fn class(self, class: Class<Style>) -> (r: Self)
        ensures
            r.shown() == self.shown(),
            r.cell_size_bits() == self.cell_size_bits(),
            r.style_class() == class,
    {
        QRCode { class, ..self }
    }
}

} // verus!
