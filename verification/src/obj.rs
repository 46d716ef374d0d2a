//! The boundary to the external OBJ parser.
//!
//! Parsing the OBJ text format is the parser crate's own job; this module
//! only names its outcome. `obj_parse` stands for the meshes that the parser
//! yields for a given byte sequence (or `None` when the bytes are not a
//! well-formed OBJ document): the result depends on the bytes alone, so one
//! name per input is sound. Everything downstream of the parse is verified
//! against that name.
//!
//! Before any bytes reach the parser, the verified [`scan_rejects_stream`]
//! screens them: element statements carrying a relative (negative) or
//! overlong index reference are refused outright, because on those the
//! parser's index arithmetic is not known to stay within bounds. The
//! refusal is part of [`crate::model::ModelBuilder::with_obj`]'s contract.

use vstd::prelude::*;

use crate::mesh::RawMesh;

verus! {

/// What the OBJ parser yields for these bytes: `None` on a parse failure,
/// otherwise one `(positions, normals, indices)` triple per sub-mesh, in
/// document order, with the scalars as bit patterns.
pub uninterp spec fn obj_parse(bytes: Seq<u8>) -> Option<Seq<(Seq<u32>, Seq<u32>, Seq<u32>)>>;

/// Bytes the OBJ parser may skip as whitespace in front of a statement
/// keyword: ASCII whitespace other than the line feed, and — conservatively,
/// since the parser skips Unicode whitespace — every non-ASCII byte.
pub open spec fn leading_skippable(b: u8) -> bool {
    b == 0x20 || b == 0x09 || b == 0x0b || b == 0x0c || b == 0x0d || b >= 0x80
}

/// Whether a line whose first byte is `b` could be an element (`f` or `l`)
/// statement: it starts with the keyword letter itself, or with something
/// the parser may skip before the keyword.
pub open spec fn possible_element_line_start(b: u8) -> bool {
    b == 0x66 || b == 0x6c || leading_skippable(b)
}

pub open spec fn is_ascii_digit(b: u8) -> bool {
    0x30 <= b <= 0x39
}

/// A run of 19 decimal digits starting at `j`: long enough that the index
/// it writes can drive the parser's bounds arithmetic past `usize::MAX`.
pub open spec fn long_digit_run_at(bytes: Seq<u8>, j: int) -> bool {
    j + 19 <= bytes.len() && (forall|m: int| j <= m < j + 19 ==> is_ascii_digit(bytes[m]))
}

/// Position `s` starts a line that could be an element statement, and
/// position `j` in that same line holds a minus sign or starts a run of 19
/// digits.
pub open spec fn suspicious_at(bytes: Seq<u8>, s: int, j: int) -> bool {
    &&& 0 <= s <= j < bytes.len()
    &&& (s == 0 || bytes[s - 1] == 0x0a)
    &&& possible_element_line_start(bytes[s])
    &&& (forall|m: int| s <= m < j ==> bytes[m] != 0x0a)
    &&& (bytes[j] == 0x2d || long_digit_run_at(bytes, j))
}

/// Whether the byte stream is refused before it reaches the OBJ parser:
/// some possible element statement carries a minus sign (a relative index
/// reference) or an index of 19 or more digits.
pub open spec fn rejected_stream(bytes: Seq<u8>) -> bool {
    exists|s: int, j: int| suspicious_at(bytes, s, j)
}

/// The flat-array contents of a sequence of raw meshes.
pub open spec fn raw_meshes_view(meshes: Seq<RawMesh>) -> Seq<(Seq<u32>, Seq<u32>, Seq<u32>)> {
    meshes.map_values(|m: RawMesh| (m.positions@, m.normals@, m.indices@))
}

/// Decides [`rejected_stream`] in one pass: refuses byte streams on which
/// the OBJ parser's face-index arithmetic is not known to stay in bounds.
/// The parser guards position indices with saturating arithmetic but
/// multiplies texcoord and normal indices unchecked before its bounds
/// comparison, so a far out-of-range reference — written negative, or with
/// 19 or more digits — can overflow there. Any candidate element line
/// holding a minus sign or such a digit run is therefore refused whole;
/// in-range relative (negative) references are the corner of the format
/// this narrowing gives up.
pub fn scan_rejects_stream(bytes: &[u8]) -> (r: bool)
    ensures
        r == rejected_stream(bytes@),
{
    let n = bytes.len();
    let mut i: usize = 0;
    let ghost mut ls: int = 0;
    let mut at_line_start: bool = true;
    let mut suspect: bool = false;
    let mut digits: usize = 0;
    while i < n
        invariant
            n == bytes@.len(),
            i <= n,
            0 <= ls <= i,
            ls == 0 || bytes@[ls - 1] == 0x0a,
            forall|m: int| ls <= m < i ==> bytes@[m] != 0x0a,
            at_line_start <==> i == ls,
            i > ls ==> suspect == possible_element_line_start(bytes@[ls]),
            digits <= i - ls,
            forall|m: int| i - digits <= m < i ==> is_ascii_digit(bytes@[m]),
            i - digits == 0 || !is_ascii_digit(bytes@[i - digits - 1]),
            forall|s: int, j: int|
                suspicious_at(bytes@, s, j) ==> ((bytes@[j] == 0x2d && j >= i) || (
                long_digit_run_at(bytes@, j) && j + 18 >= i)),
        decreases n - i,
    {
        let b = bytes[i];
        if at_line_start {
            suspect = b == 0x66 || b == 0x6c || b == 0x20 || b == 0x09 || b == 0x0b || b == 0x0c
                || b == 0x0d || b >= 0x80;
        }
        if 0x30 <= b && b <= 0x39 {
            digits = digits + 1;
        } else {
            digits = 0;
        }
        if suspect && b == 0x2d {
            proof {
                assert(suspicious_at(bytes@, ls, i as int));
            }
            return true;
        }
        if suspect && digits >= 19 {
            proof {
                let j = i as int - 18;
                assert(forall|m: int| i + 1 - digits <= m < i + 1 ==> is_ascii_digit(bytes@[m]));
                assert(long_digit_run_at(bytes@, j));
                assert(suspicious_at(bytes@, ls, j));
            }
            return true;
        }
        proof {
            let ghost_i = i as int;
            assert forall|s: int, j: int| suspicious_at(bytes@, s, j) implies ((bytes@[j] == 0x2d
                && j >= ghost_i + 1) || (long_digit_run_at(bytes@, j) && j + 18 >= ghost_i + 1)) by {
                if suspicious_at(bytes@, s, j) {
                    if bytes@[j] == 0x2d && j == ghost_i {
                        // The minus sign sits in the current line, whose only
                        // line start is `ls`; a suspicious line start would
                        // have made this iteration return already.
                        if s < ls {
                            assert(bytes@[ls - 1] == 0x0a);
                            assert(s <= ls - 1 < j);
                            assert(false);
                        }
                        if s > ls {
                            assert(bytes@[s - 1] != 0x0a);
                            assert(false);
                        }
                        assert(s == ls);
                        assert(possible_element_line_start(bytes@[ls]));
                        assert(suspect);
                        assert(false);
                    }
                    if long_digit_run_at(bytes@, j) && j + 18 == ghost_i {
                        // The digit run ends at the current byte; the same
                        // uniqueness argument puts its line start at `ls`,
                        // and run maximality forces the counter to 19.
                        assert(is_ascii_digit(bytes@[ghost_i]));
                        if j < ls {
                            assert(j <= ls - 1 < j + 19);
                            assert(is_ascii_digit(bytes@[ls - 1]));
                            assert(false);
                        }
                        if s < ls {
                            assert(bytes@[ls - 1] == 0x0a);
                            assert(s <= ls - 1 < j);
                            assert(false);
                        }
                        if s > ls {
                            assert(bytes@[s - 1] != 0x0a);
                            assert(false);
                        }
                        assert(s == ls);
                        assert(possible_element_line_start(bytes@[ls]));
                        assert(suspect);
                        if digits < 19 {
                            assert(ghost_i + 1 - digits - 1 >= j);
                            assert(is_ascii_digit(bytes@[ghost_i + 1 - digits - 1]));
                            assert(false);
                        }
                        assert(false);
                    }
                }
            }
        }
        if b == 0x0a {
            at_line_start = true;
            suspect = false;
            proof {
                ls = i as int + 1;
            }
        } else {
            at_line_start = false;
        }
        i = i + 1;
    }
    proof {
        assert forall|s: int, j: int| !suspicious_at(bytes@, s, j) by {
            if suspicious_at(bytes@, s, j) {
                assert(j < n);
                assert(bytes@[j] == 0x2d ==> j >= n);
                assert(long_digit_run_at(bytes@, j) ==> j + 19 <= n && j + 18 >= n);
                assert(false);
            }
        }
    }
    false
}

/// Relies on tobj::load_obj_buf: parsing an in-memory OBJ byte stream reads
/// nothing but the bytes, so the outcome is a function of the bytes alone.
/// The stream is loaded triangulated and single-indexed, so each sub-mesh
/// comes back with one index array over its flat position/normal arrays.
/// Material libraries are not resolved; the geometry does not depend on them.
/// The requires keeps out the streams [`scan_rejects_stream`] refuses: on
/// those, the parser's unchecked texcoord/normal index arithmetic could
/// overflow and panic instead of returning its error.
#[verifier::external_body]
pub(crate) fn parse_obj_bytes(bytes: &[u8]) -> (r: Option<Vec<RawMesh>>)
    requires
        !rejected_stream(bytes@),
    ensures
        r is None <==> obj_parse(bytes@) is None,
        r matches Some(meshes) ==> obj_parse(bytes@) == Some(raw_meshes_view(meshes@)),
{
    let options = tobj::LoadOptions { triangulate: true, single_index: true, ..Default::default() };
    let mut reader = bytes;
    let loaded = tobj::load_obj_buf(&mut reader, &options, |_| Ok((Vec::new(), Default::default())));
    let (models, _) = loaded.ok()?;
    Some(models.into_iter().map(|m| RawMesh {
        positions: m.mesh.positions.iter().map(|s| s.to_bits()).collect(),
        normals: m.mesh.normals.iter().map(|s| s.to_bits()).collect(),
        indices: m.mesh.indices,
    }).collect())
}

} // verus!
