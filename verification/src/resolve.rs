//! Cross-instruction data resolution: a byte range is requested from either
//! the current instruction's data or a sibling instruction's data by index,
//! with the reserved index 0xFFFF meaning "the current instruction".

use vstd::prelude::*;
use crate::PrecompileError;

verus! {

/// The byte contents of each buffer in a list of instruction datas.
pub open spec fn datas_view(d: Seq<&[u8]>) -> Seq<Seq<u8>> {
    d.map_values(|x: &[u8]| x@)
}

/// The byte range denoted by (instruction index, offset, size). The source
/// buffer is `data` when the index is the sentinel 0xFFFF, else the indexed
/// entry of `datas`; `None` when the index or the range is out of bounds.
pub open spec fn spec_resolve(
    data: Seq<u8>,
    datas: Seq<Seq<u8>>,
    instruction_index: u16,
    offset: u16,
    size: nat,
) -> Option<Seq<u8>> {
    if instruction_index != 0xFFFF && instruction_index as int >= datas.len() {
        None
    } else {
        let src = if instruction_index == 0xFFFF {
            data
        } else {
            datas[instruction_index as int]
        };
        if offset + size <= src.len() {
            Some(src.subrange(offset as int, offset as int + size as int))
        } else {
            None
        }
    }
}

/// Returns the requested byte range as a borrowed slice, or
/// `InvalidDataOffsets` when the index or the range is out of bounds.
pub fn get_data_slice<'a>(
    data: &'a [u8],
    instruction_datas: &'a [&'a [u8]],
    instruction_index: u16,
    offset_start: u16,
    size: usize,
) -> (res: Result<&'a [u8], PrecompileError>)
    ensures
        match res {
            Ok(s) => spec_resolve(
                data@,
                datas_view(instruction_datas@),
                instruction_index,
                offset_start,
                size as nat,
            ) == Some(s@),
            Err(e) => spec_resolve(
                data@,
                datas_view(instruction_datas@),
                instruction_index,
                offset_start,
                size as nat,
            ) is None && e == PrecompileError::InvalidDataOffsets,
        },
{
    let instruction: &[u8] = if instruction_index == u16::MAX {
        data
    } else {
        let signature_index = instruction_index as usize;
        if signature_index >= instruction_datas.len() {
            return Err(PrecompileError::InvalidDataOffsets);
        }
        let chosen: &[u8] = *vstd::slice::slice_index_get(instruction_datas, signature_index);
        proof {
            assert(chosen@ == datas_view(instruction_datas@)[instruction_index as int]);
        }
        chosen
    };
    let start = offset_start as usize;
    if size > instruction.len() || start > instruction.len() - size {
        return Err(PrecompileError::InvalidDataOffsets);
    }
    Ok(vstd::slice::slice_subrange(instruction, start, start + size))
}

} // verus!
