//! Native records that more than one part of the Windows binding reads.
pub mod jobinfo;
