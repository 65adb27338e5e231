use crate::error::Error;
use crate::form::{files_view, FilePartView, MultipartDatas};
use crate::publish::PublishRequest;
use vstd::prelude::*;

verus! {

/// What an upload publishes, given whether the requester owns the target
/// record and the file parts of the request: the path and content type of the
/// only file part.
pub open spec fn upload_plan(is_owner: bool, files: Seq<FilePartView>) -> Result<
    (Seq<char>, Seq<char>),
    Error,
> {
    if !is_owner {
        Err(Error::LackPermissions)
    } else if files.len() != 1 {
        Err(Error::IncorrectFilecount(1))
    } else {
        match files[0].content_type {
            None => Err(Error::MissingContentType),
            Some(ct) => Ok((files[0].path, ct)),
        }
    }
}

/// A request with no file part, or with more than one, is turned down before
/// anything is published.
pub proof fn lemma_single_file_required(is_owner: bool, files: Seq<FilePartView>)
    requires
        files.len() != 1,
    ensures
        upload_plan(is_owner, files) is Err,
{
}

/// Checks an upload before anything goes over the network: the requester
/// must own the target record, the request must hold exactly one file part,
/// and that part must declare its content type.
pub fn plan_upload(is_owner: bool, data: &MultipartDatas) -> (r: Result<PublishRequest, Error>)
    ensures
        match upload_plan(is_owner, files_view(data.files@)) {
            Ok((path, ct)) => r matches Ok(req) && req.path@ == path && req.content_type@ == ct,
            Err(e) => r == Err::<PublishRequest, Error>(e),
        },
{
    if !is_owner {
        return Err(Error::LackPermissions);
    }
    if data.files.len() != 1 {
        return Err(Error::IncorrectFilecount(1));
    }
    let file = &data.files[0];
    match &file.content_type {
        None => Err(Error::MissingContentType),
        Some(ct) => Ok(PublishRequest { path: file.path.clone(), content_type: ct.clone() }),
    }
}

} // verus!
