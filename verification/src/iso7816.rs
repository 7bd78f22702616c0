//! ISO/IEC 7816-4: status words and APDU framing.

use vstd::prelude::*;
use vstd::slice::slice_subrange;

verus! {

/// APDU framing faults (ISO 7816-4 §5.2).
#[derive(Clone, Copy, Debug, PartialEq, Eq, Structural)]
pub enum Error {
    /// Lc of a short APDU is zero.
    LcZero,
    /// Fewer than four bytes.
    ApduTooShort,
    /// Trailing bytes after a short APDU.
    ApduTooLong,
    /// Lc of an extended APDU is zero.
    ExtendedLcZero,
    /// Trailing bytes after an extended APDU.
    ExtendedApduTooLong,
}

/// A status word (ISO 7816-4 §5.6).
#[derive(Clone, Copy, Debug, Eq, PartialEq, Structural)]
pub struct StatusWord(pub u16);

impl StatusWord {
    /// The first status byte.
    pub fn sw1(self) -> (r: u8)
        ensures
            r == self.0 / 256,
    {
        let w = self.0;
        proof {
            assert(w >> 8 == w / 256 && w >> 8 < 256) by (bit_vector);
        }
        (w >> 8) as u8
    }

    /// The second status byte.
    pub fn sw2(self) -> (r: u8)
        ensures
            r == self.0 % 256,
    {
        let w = self.0;
        proof {
            assert(w & 0xff == w % 256 && w & 0xff < 256) by (bit_vector);
        }
        (w & 0xff) as u8
    }

    /// Processing completed, possibly with data remaining.
    pub fn is_success(self) -> (r: bool)
        ensures
            r == (self.0 == 0x9000 || (0x6100 <= self.0 <= 0x61ff)),
    {
        self.0 == 0x9000 || (0x6100 <= self.0 && self.0 <= 0x61ff)
    }

    /// How many response bytes remain, when the card says so.
    pub fn data_remaining(self) -> (r: Option<usize>)
        ensures
            r == if 0x6100 <= self.0 <= 0x61ff {
                Some((self.0 % 256) as usize)
            } else {
                None::<usize>
            },
    {
        let w = self.0;
        proof {
            assert(w & 0xff == w % 256) by (bit_vector);
        }
        if 0x6100 <= w && w <= 0x61ff {
            Some((w & 0xff) as usize)
        } else {
            None
        }
    }

    /// A status word the standard allows.
    pub fn is_valid(self) -> (r: bool)
        ensures
            r == ((0x6100 <= self.0 <= 0x6fff) || (0x9000 <= self.0 <= 0x9fff)),
    {
        (0x6100 <= self.0 && self.0 <= 0x6fff) || (0x9000 <= self.0 && self.0 <= 0x9fff)
    }

    /// A warning status.
    pub fn is_warning(self) -> (r: bool)
        ensures
            r == (0x6200 <= self.0 <= 0x63ff),
    {
        0x6200 <= self.0 && self.0 <= 0x63ff
    }

    /// An error status; the response data must then be absent.
    pub fn is_error(self) -> (r: bool)
        ensures
            r == (0x6400 <= self.0 <= 0x6fff),
    {
        0x6400 <= self.0 && self.0 <= 0x6fff
    }

    /// An execution error.
    pub fn is_execution_error(self) -> (r: bool)
        ensures
            r == (0x6400 <= self.0 <= 0x65ff),
    {
        0x6400 <= self.0 && self.0 <= 0x65ff
    }

    /// A checking error.
    pub fn is_checking_error(self) -> (r: bool)
        ensures
            r == (0x6700 <= self.0 <= 0x6fff),
    {
        0x6700 <= self.0 && self.0 <= 0x6fff
    }

}

/// The class text `class_as_str` returns for each status word.
pub open spec fn spec_status_class(w: u16) -> Seq<char> {
    if w == 0x9000 || (0x6100 <= w && w <= 0x61ff) {
        "Success"@
    } else if 0x6200 <= w && w <= 0x63ff {
        "Warning"@
    } else if 0x6400 <= w && w <= 0x66ff {
        "Execution error"@
    } else if 0x6700 <= w && w <= 0x6fff {
        "Checking error"@
    } else if 0x9000 <= w && w <= 0x9fff {
        "Unknown"@
    } else {
        "Invalid"@
    }
}

/// The description `as_str` returns for each status word.
pub open spec fn spec_status_text(w: u16) -> Seq<char> {
    if w == 0x9000 {
        "Success"@
    } else if 0x9000 <= w && w <= 0x9fff {
        "Unknown proprietary status word"@
    } else if 0x6100 <= w && w <= 0x61ff {
        "Success, data remaining"@
    } else if w == 0x6200 {
        "Unspecified non-modifying warning"@
    } else if 0x6202 <= w && w <= 0x6280 {
        "Query pending"@
    } else if w == 0x6281 {
        "Part of returned data may be corrupted"@
    } else if w == 0x6282 {
        "End of file/record reached before reading Le bytes, or unsuccessful search"@
    } else if w == 0x6283 {
        "Selected file invalidated"@
    } else if w == 0x6284 {
        "File or data control information not formatted correctly"@
    } else if w == 0x6285 {
        "Selected file or data object in termination state"@
    } else if w == 0x6286 {
        "No input data available from a sensor on the card"@
    } else if w == 0x6287 {
        "At least one of the referenced records is not processed"@
    } else if 0x6200 <= w && w <= 0x62ff {
        "Unknown non-modifying warning"@
    } else if w == 0x6300 {
        "Unspecified modifying warning"@
    } else if w == 0x6340 {
        "Unsuccessful comparison"@
    } else if w == 0x6381 {
        "File or data object filled up by last write"@
    } else if 0x63c0 <= w && w <= 0x63cf {
        "Counter value"@
    } else if 0x6300 <= w && w <= 0x63ff {
        "Unknown modifying warning"@
    } else if w == 0x6400 {
        "Unspecified non-modifying execution error"@
    } else if w == 0x6401 {
        "Immediate response required by the card"@
    } else if 0x6402 <= w && w <= 0x6480 {
        "Query pending"@
    } else if w == 0x6481 {
        "Logical shared access denied"@
    } else if w == 0x6482 {
        "Logical channel opening denied"@
    } else if 0x6400 <= w && w <= 0x64ff {
        "Unknown non-modifying execution error"@
    } else if w == 0x6500 {
        "Unspecified modifying execution error"@
    } else if w == 0x6581 {
        "Memory failure"@
    } else if 0x6500 <= w && w <= 0x65ff {
        "Unknown modifying execution error"@
    } else if w == 0x6600 {
        "Unspecified security execution error"@
    } else if 0x6600 <= w && w <= 0x66ff {
        "Unknown reserved security execution error"@
    } else if w == 0x6700 {
        "Unspecified wrong length error"@
    } else if w == 0x6701 {
        "Command format not compliant"@
    } else if w == 0x6702 {
        "Unexpected value of Lc"@
    } else if 0x6700 <= w && w <= 0x67ff {
        "Unknown wrong length error"@
    } else if w == 0x6800 {
        "Unspecified function in class not supported error"@
    } else if w == 0x6801 {
        "Logical channel not supported"@
    } else if w == 0x6802 {
        "Secure messaging not supported"@
    } else if w == 0x6803 {
        "Last command of the chain expected"@
    } else if w == 0x6804 {
        "Command chaining not supported"@
    } else if 0x6800 <= w && w <= 0x68ff {
        "Unknown function in class not supported error"@
    } else if w == 0x6900 {
        "Unspecified command not allowed error"@
    } else if w == 0x6981 {
        "Command incompatible with file structure"@
    } else if w == 0x6982 {
        "Security status not satisfied"@
    } else if w == 0x6983 {
        "Authentication method blocked"@
    } else if w == 0x6984 {
        "Referenced data not usable"@
    } else if w == 0x6985 {
        "Conditions of use not satisfied"@
    } else if w == 0x6986 {
        "Command not allowed (no current EF)"@
    } else if w == 0x6987 {
        "Expected secure messaging data objects missing"@
    } else if w == 0x6988 {
        "Incorrect secure messaging data objects"@
    } else if 0x6900 <= w && w <= 0x69ff {
        "Unknown command not allowed error"@
    } else if w == 0x6a00 {
        "Unspecified wrong parameters error"@
    } else if w == 0x6a80 {
        "Incorrect parameters in the data field"@
    } else if w == 0x6a81 {
        "Function not supported"@
    } else if w == 0x6a82 {
        "File or application not found"@
    } else if w == 0x6a83 {
        "Record not found"@
    } else if w == 0x6a84 {
        "Not enough memory space in the file"@
    } else if w == 0x6a85 {
        "Lc inconsistent with tag-length-value structure"@
    } else if w == 0x6a86 {
        "Incorrect P1 or P2 parameter"@
    } else if w == 0x6a87 {
        "Lc inconsistent with P1-P2"@
    } else if w == 0x6a88 {
        "Referenced data not found"@
    } else if w == 0x6a89 {
        "File already exists"@
    } else if w == 0x6a8a {
        "DF name already exists"@
    } else if 0x6a00 <= w && w <= 0x6b00 {
        "Unknown wrong parameters error"@
    } else if 0x6c00 <= w && w <= 0x6cff {
        "Wrong Le field"@
    } else if w == 0x6d00 {
        "Instruction code not supported or invalid"@
    } else if w == 0x6e00 {
        "Class not supported"@
    } else if w == 0x6f00 {
        "No precise diagnosis"@
    } else if 0x6700 <= w && w <= 0x6fff {
        "Unknown checking error"@
    } else {
        "Invalid status word"@
    }
}

impl StatusWord {
    /// The status class, as text.
    pub fn class_as_str(self) -> (r: &'static str)
        ensures
            r@ == spec_status_class(self.0),
            r@.len() > 0,
    {
        let s = if self.0 == 0x9000 || (0x6100 <= self.0 && self.0 <= 0x61ff) {
            "Success"
        } else if 0x6200 <= self.0 && self.0 <= 0x63ff {
            "Warning"
        } else if 0x6400 <= self.0 && self.0 <= 0x66ff {
            "Execution error"
        } else if 0x6700 <= self.0 && self.0 <= 0x6fff {
            "Checking error"
        } else if 0x9000 <= self.0 && self.0 <= 0x9fff {
            "Unknown"
        } else {
            "Invalid"
        };
        proof {
            reveal_strlit("Success");
            reveal_strlit("Warning");
            reveal_strlit("Execution error");
            reveal_strlit("Checking error");
            reveal_strlit("Unknown");
            reveal_strlit("Invalid");
        }
        s
    }

    /// The standard's description of the status word (ISO 7816-4 §5.6).
    pub fn as_str(self) -> (r: &'static str)
        ensures
            r@ == spec_status_text(self.0),
            r@.len() > 0,
    {
        let w = self.0;
        let s = if w == 0x9000 {
            "Success"
        } else if 0x9000 <= w && w <= 0x9fff {
            "Unknown proprietary status word"
        } else if 0x6100 <= w && w <= 0x61ff {
            "Success, data remaining"
        } else if w == 0x6200 {
            "Unspecified non-modifying warning"
        } else if 0x6202 <= w && w <= 0x6280 {
            "Query pending"
        } else if w == 0x6281 {
            "Part of returned data may be corrupted"
        } else if w == 0x6282 {
            "End of file/record reached before reading Le bytes, or unsuccessful search"
        } else if w == 0x6283 {
            "Selected file invalidated"
        } else if w == 0x6284 {
            "File or data control information not formatted correctly"
        } else if w == 0x6285 {
            "Selected file or data object in termination state"
        } else if w == 0x6286 {
            "No input data available from a sensor on the card"
        } else if w == 0x6287 {
            "At least one of the referenced records is not processed"
        } else if 0x6200 <= w && w <= 0x62ff {
            "Unknown non-modifying warning"
        } else if w == 0x6300 {
            "Unspecified modifying warning"
        } else if w == 0x6340 {
            "Unsuccessful comparison"
        } else if w == 0x6381 {
            "File or data object filled up by last write"
        } else if 0x63c0 <= w && w <= 0x63cf {
            "Counter value"
        } else if 0x6300 <= w && w <= 0x63ff {
            "Unknown modifying warning"
        } else if w == 0x6400 {
            "Unspecified non-modifying execution error"
        } else if w == 0x6401 {
            "Immediate response required by the card"
        } else if 0x6402 <= w && w <= 0x6480 {
            "Query pending"
        } else if w == 0x6481 {
            "Logical shared access denied"
        } else if w == 0x6482 {
            "Logical channel opening denied"
        } else if 0x6400 <= w && w <= 0x64ff {
            "Unknown non-modifying execution error"
        } else if w == 0x6500 {
            "Unspecified modifying execution error"
        } else if w == 0x6581 {
            "Memory failure"
        } else if 0x6500 <= w && w <= 0x65ff {
            "Unknown modifying execution error"
        } else if w == 0x6600 {
            "Unspecified security execution error"
        } else if 0x6600 <= w && w <= 0x66ff {
            "Unknown reserved security execution error"
        } else if w == 0x6700 {
            "Unspecified wrong length error"
        } else if w == 0x6701 {
            "Command format not compliant"
        } else if w == 0x6702 {
            "Unexpected value of Lc"
        } else if 0x6700 <= w && w <= 0x67ff {
            "Unknown wrong length error"
        } else if w == 0x6800 {
            "Unspecified function in class not supported error"
        } else if w == 0x6801 {
            "Logical channel not supported"
        } else if w == 0x6802 {
            "Secure messaging not supported"
        } else if w == 0x6803 {
            "Last command of the chain expected"
        } else if w == 0x6804 {
            "Command chaining not supported"
        } else if 0x6800 <= w && w <= 0x68ff {
            "Unknown function in class not supported error"
        } else if w == 0x6900 {
            "Unspecified command not allowed error"
        } else if w == 0x6981 {
            "Command incompatible with file structure"
        } else if w == 0x6982 {
            "Security status not satisfied"
        } else if w == 0x6983 {
            "Authentication method blocked"
        } else if w == 0x6984 {
            "Referenced data not usable"
        } else if w == 0x6985 {
            "Conditions of use not satisfied"
        } else if w == 0x6986 {
            "Command not allowed (no current EF)"
        } else if w == 0x6987 {
            "Expected secure messaging data objects missing"
        } else if w == 0x6988 {
            "Incorrect secure messaging data objects"
        } else if 0x6900 <= w && w <= 0x69ff {
            "Unknown command not allowed error"
        } else if w == 0x6a00 {
            "Unspecified wrong parameters error"
        } else if w == 0x6a80 {
            "Incorrect parameters in the data field"
        } else if w == 0x6a81 {
            "Function not supported"
        } else if w == 0x6a82 {
            "File or application not found"
        } else if w == 0x6a83 {
            "Record not found"
        } else if w == 0x6a84 {
            "Not enough memory space in the file"
        } else if w == 0x6a85 {
            "Lc inconsistent with tag-length-value structure"
        } else if w == 0x6a86 {
            "Incorrect P1 or P2 parameter"
        } else if w == 0x6a87 {
            "Lc inconsistent with P1-P2"
        } else if w == 0x6a88 {
            "Referenced data not found"
        } else if w == 0x6a89 {
            "File already exists"
        } else if w == 0x6a8a {
            "DF name already exists"
        } else if 0x6a00 <= w && w <= 0x6b00 {
            "Unknown wrong parameters error"
        } else if 0x6c00 <= w && w <= 0x6cff {
            "Wrong Le field"
        } else if w == 0x6d00 {
            "Instruction code not supported or invalid"
        } else if w == 0x6e00 {
            "Class not supported"
        } else if w == 0x6f00 {
            "No precise diagnosis"
        } else if 0x6700 <= w && w <= 0x6fff {
            "Unknown checking error"
        } else {
            "Invalid status word"
        };
        proof {
            reveal_strlit("At least one of the referenced records is not processed");
            reveal_strlit("Authentication method blocked");
            reveal_strlit("Class not supported");
            reveal_strlit("Command chaining not supported");
            reveal_strlit("Command format not compliant");
            reveal_strlit("Command incompatible with file structure");
            reveal_strlit("Command not allowed (no current EF)");
            reveal_strlit("Conditions of use not satisfied");
            reveal_strlit("Counter value");
            reveal_strlit("DF name already exists");
            reveal_strlit("End of file/record reached before reading Le bytes, or unsuccessful search");
            reveal_strlit("Expected secure messaging data objects missing");
            reveal_strlit("File already exists");
            reveal_strlit("File or application not found");
            reveal_strlit("File or data control information not formatted correctly");
            reveal_strlit("File or data object filled up by last write");
            reveal_strlit("Function not supported");
            reveal_strlit("Immediate response required by the card");
            reveal_strlit("Incorrect P1 or P2 parameter");
            reveal_strlit("Incorrect parameters in the data field");
            reveal_strlit("Incorrect secure messaging data objects");
            reveal_strlit("Instruction code not supported or invalid");
            reveal_strlit("Invalid status word");
            reveal_strlit("Last command of the chain expected");
            reveal_strlit("Lc inconsistent with P1-P2");
            reveal_strlit("Lc inconsistent with tag-length-value structure");
            reveal_strlit("Logical channel not supported");
            reveal_strlit("Logical channel opening denied");
            reveal_strlit("Logical shared access denied");
            reveal_strlit("Memory failure");
            reveal_strlit("No input data available from a sensor on the card");
            reveal_strlit("No precise diagnosis");
            reveal_strlit("Not enough memory space in the file");
            reveal_strlit("Part of returned data may be corrupted");
            reveal_strlit("Query pending");
            reveal_strlit("Record not found");
            reveal_strlit("Referenced data not found");
            reveal_strlit("Referenced data not usable");
            reveal_strlit("Secure messaging not supported");
            reveal_strlit("Security status not satisfied");
            reveal_strlit("Selected file invalidated");
            reveal_strlit("Selected file or data object in termination state");
            reveal_strlit("Success");
            reveal_strlit("Success, data remaining");
            reveal_strlit("Unexpected value of Lc");
            reveal_strlit("Unknown checking error");
            reveal_strlit("Unknown command not allowed error");
            reveal_strlit("Unknown function in class not supported error");
            reveal_strlit("Unknown modifying execution error");
            reveal_strlit("Unknown modifying warning");
            reveal_strlit("Unknown non-modifying execution error");
            reveal_strlit("Unknown non-modifying warning");
            reveal_strlit("Unknown proprietary status word");
            reveal_strlit("Unknown reserved security execution error");
            reveal_strlit("Unknown wrong length error");
            reveal_strlit("Unknown wrong parameters error");
            reveal_strlit("Unspecified command not allowed error");
            reveal_strlit("Unspecified function in class not supported error");
            reveal_strlit("Unspecified modifying execution error");
            reveal_strlit("Unspecified modifying warning");
            reveal_strlit("Unspecified non-modifying execution error");
            reveal_strlit("Unspecified non-modifying warning");
            reveal_strlit("Unspecified security execution error");
            reveal_strlit("Unspecified wrong length error");
            reveal_strlit("Unspecified wrong parameters error");
            reveal_strlit("Unsuccessful comparison");
            reveal_strlit("Wrong Le field");
        }
        s
    }
}

/// An APDU dissected into header, Lc, data and Le.
#[derive(Debug)]
pub struct ApduRef {
    pub header: Vec<u8>,
    pub lc: Vec<u8>,
    pub data: Vec<u8>,
    pub le: Vec<u8>,
}

impl ApduRef {
    /// The four parts are consistent with one APDU buffer.
    pub open spec fn wf(self) -> bool {
        self.header@.len() == 4
    }

    /// Instruction class.
    pub fn cla(&self) -> (r: u8)
        requires
            self.wf(),
        ensures
            r == self.header@[0],
    {
        self.header[0]
    }

    /// Instruction code.
    pub fn ins(&self) -> (r: u8)
        requires
            self.wf(),
        ensures
            r == self.header@[1],
    {
        self.header[1]
    }

    /// First parameter byte.
    pub fn p1(&self) -> (r: u8)
        requires
            self.wf(),
        ensures
            r == self.header@[2],
    {
        self.header[2]
    }

    /// Second parameter byte.
    pub fn p2(&self) -> (r: u8)
        requires
            self.wf(),
        ensures
            r == self.header@[3],
    {
        self.header[3]
    }

    /// Whether the APDU uses extended length fields.
    pub fn is_extended_length(&self) -> (r: bool)
        ensures
            r == (self.lc@.len() > 1 || self.le@.len() > 1),
    {
        self.lc.len() > 1 || self.le.len() > 1
    }
}

/// How `parse_apdu` dissects a buffer: the views of header, Lc, data, Le.
pub open spec fn spec_parse_apdu(s: Seq<u8>) -> Result<(Seq<u8>, Seq<u8>, Seq<u8>, Seq<u8>),
    Error> {
    let n = s.len() as int;
    if n < 4 {
        Err(Error::ApduTooShort)
    } else if n == 4 {
        Ok((s, Seq::empty(), Seq::empty(), Seq::empty()))
    } else if n == 5 {
        Ok((s.take(4), Seq::empty(), Seq::empty(), s.skip(4)))
    } else if s[4] == 0 {
        if n == 6 {
            Err(Error::LcZero)
        } else if n == 7 {
            Ok((s.take(4), Seq::empty(), Seq::empty(), s.skip(4)))
        } else {
            let lc = 256 * (s[5] as int) + (s[6] as int);
            if lc == 0 {
                Err(Error::ExtendedLcZero)
            } else if n - 7 == lc {
                Ok((s.take(4), s.subrange(4, 7), s.skip(7), Seq::empty()))
            } else if n - 9 == lc {
                Ok((s.take(4), s.subrange(4, 7), s.subrange(7, 7 + lc), s.skip(7 + lc)))
            } else {
                Err(Error::ExtendedApduTooLong)
            }
        }
    } else if n - 5 == s[4] as int {
        Ok((s.take(4), s.subrange(4, 5), s.skip(5), Seq::empty()))
    } else if n - 6 == s[4] as int {
        Ok((s.take(4), s.subrange(4, 5), s.subrange(5, n - 1), s.skip(n - 1)))
    } else {
        Err(Error::ApduTooLong)
    }
}

/// Parses an APDU into header, Lc, data, and Le (ISO 7816-4 §5.2).
pub fn parse_apdu(apdu: &[u8]) -> (r: Result<ApduRef, Error>)
    ensures
        match r {
            Ok(a) => {
                &&& spec_parse_apdu(apdu@) is Ok
                &&& {
                    let (h, lc, d, le) = spec_parse_apdu(apdu@).unwrap();
                    &&& a.header@ == h
                    &&& a.lc@ == lc
                    &&& a.data@ == d
                    &&& a.le@ == le
                    &&& a.wf()
                }
            },
            Err(e) => spec_parse_apdu(apdu@) == Err::<(Seq<u8>, Seq<u8>, Seq<u8>, Seq<u8>),
                Error>(e),
        },
{
    let n = apdu.len();
    if n < 4 {
        return Err(Error::ApduTooShort);
    }
    let header = copy_range(apdu, 0, 4);
    proof {
        assert(header@ =~= apdu@.take(4));
    }
    if n == 4 {
        proof {
            assert(apdu@.take(4) =~= apdu@);
        }
        return Ok(ApduRef { header, lc: Vec::new(), data: Vec::new(), le: Vec::new() });
    }
    if n == 5 {
        let le = copy_range(apdu, 4, 5);
        proof {
            assert(le@ =~= apdu@.skip(4));
        }
        return Ok(ApduRef { header, lc: Vec::new(), data: Vec::new(), le });
    }
    let b4 = *vstd::slice::slice_index_get(apdu, 4);
    if b4 == 0 {
        if n == 6 {
            return Err(Error::LcZero);
        }
        if n == 7 {
            let le = copy_range(apdu, 4, 7);
            proof {
                assert(le@ =~= apdu@.skip(4));
            }
            return Ok(ApduRef { header, lc: Vec::new(), data: Vec::new(), le });
        }
        let b5 = *vstd::slice::slice_index_get(apdu, 5);
        let b6 = *vstd::slice::slice_index_get(apdu, 6);
        let lc: usize = 256 * (b5 as usize) + (b6 as usize);
        if lc == 0 {
            return Err(Error::ExtendedLcZero);
        }
        if n - 7 == lc {
            let lcv = copy_range(apdu, 4, 7);
            let data = copy_range(apdu, 7, n);
            proof {
                assert(data@ =~= apdu@.skip(7));
            }
            return Ok(ApduRef { header, lc: lcv, data, le: Vec::new() });
        }
        if n >= 9 && n - 9 == lc {
            let lcv = copy_range(apdu, 4, 7);
            let data = copy_range(apdu, 7, 7 + lc);
            let le = copy_range(apdu, 7 + lc, n);
            proof {
                assert(le@ =~= apdu@.skip(7 + lc));
            }
            return Ok(ApduRef { header, lc: lcv, data, le });
        }
        return Err(Error::ExtendedApduTooLong);
    }
    if n - 5 == b4 as usize {
        let lcv = copy_range(apdu, 4, 5);
        let data = copy_range(apdu, 5, n);
        proof {
            assert(data@ =~= apdu@.skip(5));
        }
        return Ok(ApduRef { header, lc: lcv, data, le: Vec::new() });
    }
    if n - 6 == b4 as usize {
        let lcv = copy_range(apdu, 4, 5);
        let data = copy_range(apdu, 5, n - 1);
        let le = copy_range(apdu, n - 1, n);
        proof {
            assert(le@ =~= apdu@.skip(n - 1));
        }
        return Ok(ApduRef { header, lc: lcv, data, le });
    }
    Err(Error::ApduTooLong)
}

/// Copies `s[from..to]` into a fresh buffer.
fn copy_range(s: &[u8], from: usize, to: usize) -> (r: Vec<u8>)
    requires
        from <= to <= s@.len(),
    ensures
        r@ == s@.subrange(from as int, to as int),
{
    let part = slice_subrange(s, from, to);
    let mut out: Vec<u8> = Vec::new();
    out.extend_from_slice(part);
    proof {
        assert(out@ =~= s@.subrange(from as int, to as int));
    }
    out
}

} // verus!
