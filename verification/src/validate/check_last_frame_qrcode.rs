//! Checks what a QR code in the last frame of a sink says.
//!
//! Codes are found in a frame outside of this library: the search of `rqrr` panics on frames whose
//! marks are too distorted, and nothing short tells such frames from others. What is found, a grid
//! of cells, is decoded here.

use super::utils::fits_image;
use crate::actions::{ActionParameter, ActionType};
use crate::text::str_eq;
use vstd::prelude::*;

verus! {

/// Declares `rqrr::DeQRError`, the reason why a code cannot be decoded.
#[verifier::external_type_specification]
#[verifier::external_body]
pub struct ExDeQRError(rqrr::DeQRError);

/// The cells of a QR code, row by row; true is black.
#[derive(Debug)]
pub struct QrGrid {
    pub size: usize,
    pub bits: Vec<bool>,
}

/// The sizes of QR codes, from version 1 to version 40.
pub open spec fn is_code_size(size: int) -> bool {
    21 <= size <= 177 && size % 4 == 1
}

impl QrGrid {
    /// Whether the size is that of a QR code, and the cells are there.
    pub open spec fn wf(self) -> bool {
        is_code_size(self.size as int) && self.bits@.len() == self.size * self.size
    }

    /// Whether the size is that of a QR code, and the cells are there.
    pub fn is_code(&self) -> (r: bool)
        ensures
            r == self.wf(),
    {
        if self.size < 21 || self.size > 177 || self.size % 4 != 1 {
            return false;
        }
        assert(0 <= self.size * self.size <= 177 * 177) by (nonlinear_arith)
            requires
                0 <= self.size <= 177,
        ;
        self.bits.len() == self.size * self.size
    }
}

/// What the cells of a QR code say; None where they cannot be decoded.
pub uninterp spec fn qr_text(size: usize, bits: Seq<bool>) -> Option<Seq<char>>;

/// The text in a result of decoding.
pub open spec fn text_in(decoded: Result<String, rqrr::DeQRError>) -> Option<Seq<char>> {
    match decoded {
        Ok(text) => Some(text@),
        Err(_) => None,
    }
}

/// Calls `rqrr::Grid::decode` on the cells of a code, as a `rqrr::SimpleGrid`. Whether they can be
/// decoded, and what they say, is named by `qr_text`: it depends on the cells alone. Which error
/// comes is not stated. Other sizes than those of QR codes are left out, on some of which the
/// decoder panics.
#[verifier::external_body]
fn decode_grid(grid: &QrGrid) -> (decoded: Result<String, rqrr::DeQRError>)
    requires
        grid.wf(),
    ensures
        text_in(decoded) == qr_text(grid.size, grid.bits@),
{
    let cells = rqrr::SimpleGrid::from_func(grid.size, |x, y| grid.bits[y * grid.size + x]);
    rqrr::Grid::new(cells).decode().map(|(_, content)| content)
}

/// Why there is no content.
#[derive(Debug)]
pub enum QrError {
    /// The frame is smaller than it should be.
    FrameTooSmall,
    NotFound,
    Undecodable(rqrr::DeQRError),
}

impl QrError {
    /// What is said of the failure; `reason` is what the decoder says of its own.
    pub fn message(&self, reason: &str) -> (text: String)
        ensures
            text@ == match *self {
                QrError::FrameTooSmall => "Failed to create image buffer from gray data"@,
                QrError::NotFound => "No QR code found in frame"@,
                QrError::Undecodable(_) => "Failed to decode QR code: "@ + reason@,
            },
    {
        match self {
            QrError::FrameTooSmall => "Failed to create image buffer from gray data".to_owned(),
            QrError::NotFound => "No QR code found in frame".to_owned(),
            QrError::Undecodable(_) => {
                let mut text = "Failed to decode QR code: ".to_owned();
                text.append(reason);
                text
            },
        }
    }
}

/// Whether a gray frame can be searched for codes: whether its bytes hold its rows, one after the
/// other.
pub fn check_frame(width: u32, height: u32, len: usize) -> (r: Result<(), QrError>)
    ensures
        r == if super::utils::image_fits(width, height, 1, len as int) {
            Ok::<(), QrError>(())
        } else {
            Err(QrError::FrameTooSmall)
        },
{
    if fits_image(width, height, 1, len) {
        Ok(())
    } else {
        Err(QrError::FrameTooSmall)
    }
}

/// Whether a result is what a decoded code calls for.
pub open spec fn is_content(text: Option<Seq<char>>, r: Result<String, QrError>) -> bool {
    match text {
        Some(text) => r is Ok && r->Ok_0@ == text,
        None => r is Err && r->Err_0 is Undecodable,
    }
}

/// What the first QR code of a frame says, where there is one: its content, or the reason why it
/// cannot be decoded.
pub fn first_content(decoded: Option<Result<String, rqrr::DeQRError>>) -> (r: Result<
    String,
    QrError,
>)
    ensures
        r == match decoded {
            None => Err::<String, QrError>(QrError::NotFound),
            Some(Err(e)) => Err(QrError::Undecodable(e)),
            Some(Ok(content)) => Ok(content),
        },
{
    match decoded {
        None => Err(QrError::NotFound),
        Some(Err(e)) => Err(QrError::Undecodable(e)),
        Some(Ok(content)) => Ok(content),
    }
}

/// What the first of the QR codes of a frame says: `grids` are those that were found in it, in
/// their order. The others are not decoded.
pub fn decode_qrcode(grids: &Vec<QrGrid>) -> (r: Result<String, QrError>)
    requires
        grids@.len() > 0 ==> grids@[0].wf(),
    ensures
        grids@.len() == 0 ==> r == Err::<String, QrError>(QrError::NotFound),
        grids@.len() > 0 ==> is_content(qr_text(grids@[0].size, grids@[0].bits@), r),
{
    if grids.len() == 0 {
        return first_content(None);
    }
    first_content(Some(decode_grid(&grids[0])))
}

/// What is said of a code that says something else than what is expected.
pub open spec fn mismatch_text(expected: Seq<char>, decoded: Seq<char>) -> Seq<char> {
    "QR code data mismatch: expected '"@ + expected + "', got '"@ + decoded + "'"@
}

/// Compares what a code says with what is expected, which has to be given.
pub fn check_content(decoded: &str, expected: Option<&str>) -> (r: Result<(), String>)
    ensures
        match expected {
            None => r is Err && r->Err_0@ == "Missing required parameter 'expected-data'"@,
            Some(expected) => if decoded@ == expected@ {
                r is Ok
            } else {
                r is Err && r->Err_0@ == mismatch_text(expected@, decoded@)
            },
        },
{
    let expected = match expected {
        Some(expected) => expected,
        None => return Err("Missing required parameter 'expected-data'".to_owned()),
    };
    if str_eq(decoded, expected) {
        return Ok(());
    }
    let mut text = "QR code data mismatch: expected '".to_owned();
    text.append(expected);
    text.append("', got '");
    text.append(decoded);
    text.append("'");
    Err(text)
}

/// How the action is described.
pub open spec fn is_qrcode_action(action: ActionType, namespace: Seq<char>) -> bool {
    &&& crate::actions::action_is(
        action,
        "check-last-frame-qrcode"@,
        Some(namespace),
        Some(
            "Checks that a QR code in the last frame of the specified sink contains the expected data. This allows validating QR code generation in video streams."@,
        ),
        true,
    )
    &&& action.parameters.len() == 4
    &&& crate::actions::parameter_is(
        action.parameters[0],
        "sink-name"@,
        "The name of the sink element to check sample on"@,
        Some("string"@),
        None,
        false,
    )
    &&& crate::actions::parameter_is(
        action.parameters[1],
        "sink-factory-name"@,
        "The factory name of the sink element to check sample on"@,
        Some("string"@),
        None,
        false,
    )
    &&& crate::actions::parameter_is(
        action.parameters[2],
        "sinkpad-caps"@,
        "The caps (as string) of the sink pad to check"@,
        Some("GstCaps"@),
        None,
        false,
    )
    &&& crate::actions::parameter_is(
        action.parameters[3],
        "expected-data"@,
        "The expected QR code data content"@,
        Some("string"@),
        None,
        true,
    )
}

/// The action, as it is registered.
pub fn register_validate_actions(namespace: &'static str) -> (action: ActionType)
    ensures
        is_qrcode_action(action, namespace@),
{
    let mut parameters: Vec<ActionParameter> = Vec::new();
    parameters.push(
        ActionParameter {
            name: "sink-name",
            description: "The name of the sink element to check sample on",
            value_type: Some("string"),
            default_value: None,
            mandatory: false,
        },
    );
    parameters.push(
        ActionParameter {
            name: "sink-factory-name",
            description: "The factory name of the sink element to check sample on",
            value_type: Some("string"),
            default_value: None,
            mandatory: false,
        },
    );
    parameters.push(
        ActionParameter {
            name: "sinkpad-caps",
            description: "The caps (as string) of the sink pad to check",
            value_type: Some("GstCaps"),
            default_value: None,
            mandatory: false,
        },
    );
    parameters.push(
        ActionParameter {
            name: "expected-data",
            description: "The expected QR code data content",
            value_type: Some("string"),
            default_value: None,
            mandatory: true,
        },
    );
    ActionType {
        name: "check-last-frame-qrcode",
        implementer: Some(namespace),
        description: Some(
            "Checks that a QR code in the last frame of the specified sink contains the expected data. This allows validating QR code generation in video streams.",
        ),
        parameters,
        is_check: true,
    }
}

/// QR codes have 21 cells on a side and four more for each further version, up to the fortieth.
pub proof fn law_sizes_of_codes_go_by_their_versions(size: int, version: int)
    ensures
        1 <= version <= 40 ==> is_code_size(21 + 4 * (version - 1)),
        is_code_size(size) ==> 1 <= (size - 17) / 4 <= 40 && size == 17 + 4 * ((size - 17) / 4),
{
}

/// A mismatch names both texts, the expected one first, each between quotes.
pub proof fn law_mismatches_name_both(expected: Seq<char>, decoded: Seq<char>)
    ensures
        ({
            let text = mismatch_text(expected, decoded);
            let n = "QR code data mismatch: expected '"@.len() as int;
            &&& text.subrange(n, n + expected.len()) == expected
            &&& text.subrange(text.len() - 1 - decoded.len(), text.len() - 1) == decoded
            &&& text.last() == '\'' && text[n - 1] == '\''
        }),
{
    reveal_strlit("QR code data mismatch: expected '");
    reveal_strlit("', got '");
    reveal_strlit("'");
    let text = mismatch_text(expected, decoded);
    let n = "QR code data mismatch: expected '"@.len() as int;
    assert(text.subrange(n, n + expected.len()) =~= expected);
    assert(text.subrange(text.len() - 1 - decoded.len(), text.len() - 1) =~= decoded);
}

} // verus!
