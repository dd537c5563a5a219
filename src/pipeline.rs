use vstd::prelude::*;
use crate::error::RunError;

verus! {

/// How many read lines may wait for the processor before the reader blocks.
pub const LINE_QUEUE_CAPACITY: usize = 64;

/// The outcome of a run from the outcomes of its stages, taken in join order:
/// the reader's error if it failed, else the processor's, else the writer's.
pub open spec fn joined(
    reader: Result<(), RunError>,
    processor: Result<(), RunError>,
    writer: Result<(), RunError>,
) -> Result<(), RunError> {
    if reader is Err {
        reader
    } else if processor is Err {
        processor
    } else {
        writer
    }
}

/// Reports the first error among the stages in the order reader, processor,
/// writer; the run succeeds only when all three did.
pub fn first_error(
    reader: Result<(), RunError>,
    processor: Result<(), RunError>,
    writer: Result<(), RunError>,
) -> (r: Result<(), RunError>)
    ensures
        r == joined(reader, processor, writer),
        r is Ok <==> reader is Ok && processor is Ok && writer is Ok,
{
    match reader {
        Err(e) => Err(e),
        Ok(()) => match processor {
            Err(e) => Err(e),
            Ok(()) => writer,
        },
    }
}

} // verus!
