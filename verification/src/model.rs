//! The conversion driver's record of one model: where it is read from, the
//! resolved file type, and where output goes. The weight-loading pipeline
//! around it is future work; only construction and the registry stub exist.
use vstd::prelude::*;
use vstd::string::StringExecFns;

use crate::gguf::LlamaFileType;

verus! {

pub struct Model {
    pub dir_model: String,
    pub ftype: LlamaFileType,
    pub fname_out: String,
}

impl Model {
    pub fn new(dir_model: String, ftype: LlamaFileType, fname_out: String) -> (m: Model)
        ensures
            m.dir_model == dir_model,
            m.ftype == ftype,
            m.fname_out == fname_out,
    {
        Model { dir_model, ftype, fname_out }
    }

    /// The registry of supported model architectures: a stub returning the
    /// fixed placeholder list, until real model classes are registered.
    pub fn get_registered_models() -> (r: Vec<String>)
        ensures
            r@.len() == 1,
            r@[0]@ == "TODO get models"@,
    {
        let mut v: Vec<String> = Vec::new();
        v.push(String::from_str("TODO get models"));
        v
    }
}

} // verus!
