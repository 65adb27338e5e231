use crate::error::Error;
use vstd::prelude::*;
use vstd::string::StringExecFns;

verus! {

/// The extension of every published object.
pub open spec fn object_suffix() -> Seq<char> {
    seq!['.', 'w', 'a', 's', 'm']
}

/// The scheme that addresses objects of the blob store.
pub open spec fn uri_scheme() -> Seq<char> {
    seq!['b', '2', ':', '/', '/']
}

/// The name of the object that holds a content with identifier `digest`.
pub open spec fn object_name(digest: Seq<char>) -> Seq<char> {
    digest + object_suffix()
}

/// The address of a published object.
pub open spec fn object_uri(name: Seq<char>) -> Seq<char> {
    uri_scheme() + name
}

/// The name of the object that holds a content with identifier `digest`:
/// the identifier with the module extension.
pub fn object_name_for(digest: &String) -> (r: String)
    ensures
        r@ == object_name(digest@),
{
    let suffix = ".wasm";
    proof {
        reveal_strlit(".wasm");
        assert(suffix@ =~= object_suffix());
    }
    digest.clone().concat(suffix)
}

/// The canonical address of the object `name`.
pub fn object_uri_for(name: &String) -> (r: String)
    ensures
        r@ == object_uri(name@),
{
    let scheme = "b2://";
    proof {
        reveal_strlit("b2://");
        assert(scheme@ =~= uri_scheme());
    }
    String::from_str(scheme).concat(name.as_str())
}

/// Two contents get the same address exactly when they have the same
/// identifier: publishing identical bytes twice gives the same address.
pub proof fn lemma_address_is_identity(d1: Seq<char>, d2: Seq<char>)
    ensures
        object_uri(object_name(d1)) == object_uri(object_name(d2)) <==> d1 == d2,
{
    let u1 = object_uri(object_name(d1));
    let u2 = object_uri(object_name(d2));
    if u1 == u2 {
        let n = uri_scheme().len() as int;
        assert(d1 =~= u1.subrange(n, u1.len() - 5));
        assert(d2 =~= u2.subrange(n, u2.len() - 5));
    }
}

/// The file to publish and the content type to declare for it.
#[derive(Debug, Clone, PartialEq, Eq)]
pub struct PublishRequest {
    pub path: String,
    pub content_type: String,
}

/// What the upload call is given besides the bytes: the object's name, the
/// file's size, its content type and its last modification time in
/// milliseconds since the epoch. The store checks the bytes against a
/// checksum that is computed while they stream.
#[derive(Debug, Clone, PartialEq, Eq)]
pub struct UploadParams {
    pub file_name: String,
    pub size: u64,
    pub content_type: String,
    pub last_modified_millis: u64,
}

pub struct UploadParamsView {
    pub file_name: Seq<char>,
    pub size: u64,
    pub content_type: Seq<char>,
    pub last_modified_millis: u64,
}

impl View for UploadParams {
    type V = UploadParamsView;

    open spec fn view(&self) -> UploadParamsView {
        UploadParamsView {
            file_name: self.file_name@,
            size: self.size,
            content_type: self.content_type@,
            last_modified_millis: self.last_modified_millis,
        }
    }
}

/// How the last call of a publication went.
#[derive(Debug, Clone, PartialEq, Eq)]
pub enum PublishEvent {
    Authenticated,
    AuthFailed(String),
    UploadTargetGranted,
    UploadTargetRefused(String),
    /// The file was digested: its identifier, its size and its last
    /// modification time in milliseconds since the epoch.
    Digested { digest: String, size: u64, modified_millis: u128 },
    DigestFailed(Error),
    Uploaded,
    UploadFailed(String),
}

/// The call that a publication waits on.
#[derive(Debug, Clone, PartialEq, Eq)]
pub enum PublishAction {
    /// Trade the stored credentials for a session.
    Authenticate,
    /// Ask the store for an upload target in the bucket.
    RequestUploadTarget,
    /// Digest the file.
    Digest { path: String },
    /// Stream the file to the upload target.
    Upload { path: String, params: UploadParams },
    /// The publication is over.
    Done,
}

pub enum PublishActionView {
    Authenticate,
    RequestUploadTarget,
    Digest { path: Seq<char> },
    Upload { path: Seq<char>, params: UploadParamsView },
    Done,
}

impl View for PublishAction {
    type V = PublishActionView;

    open spec fn view(&self) -> PublishActionView {
        match self {
            PublishAction::Authenticate => PublishActionView::Authenticate,
            PublishAction::RequestUploadTarget => PublishActionView::RequestUploadTarget,
            PublishAction::Digest { path } => PublishActionView::Digest { path: path@ },
            PublishAction::Upload { path, params } => PublishActionView::Upload {
                path: path@,
                params: params@,
            },
            PublishAction::Done => PublishActionView::Done,
        }
    }
}

enum PublishStage {
    Authenticating,
    Authorizing,
    Digesting,
    Uploading { params: UploadParams },
    Published { uri: String },
    Failed { error: Error },
}

pub enum PublishStageView {
    Authenticating,
    Authorizing,
    Digesting,
    Uploading { params: UploadParamsView },
    Published { uri: Seq<char> },
    Failed { error: Error },
}

/// A publication of one file to the blob store: authenticate, get an upload
/// target, digest the file, upload it under the name its digest gives, and
/// answer with the object's address. Nothing is tried twice.
pub struct Publication {
    request: PublishRequest,
    stage: PublishStage,
}

pub struct PublicationView {
    pub path: Seq<char>,
    pub content_type: Seq<char>,
    pub stage: PublishStageView,
}

impl View for Publication {
    type V = PublicationView;

    closed spec fn view(&self) -> PublicationView {
        PublicationView {
            path: self.request.path@,
            content_type: self.request.content_type@,
            stage: match &self.stage {
                PublishStage::Authenticating => PublishStageView::Authenticating,
                PublishStage::Authorizing => PublishStageView::Authorizing,
                PublishStage::Digesting => PublishStageView::Digesting,
                PublishStage::Uploading { params } => PublishStageView::Uploading { params: params@ },
                PublishStage::Published { uri } => PublishStageView::Published { uri: uri@ },
                PublishStage::Failed { error } => PublishStageView::Failed { error: *error },
            },
        }
    }
}

/// The call that a publication in state `p` waits on.
pub open spec fn publish_pending(p: PublicationView) -> PublishActionView {
    match p.stage {
        PublishStageView::Authenticating => PublishActionView::Authenticate,
        PublishStageView::Authorizing => PublishActionView::RequestUploadTarget,
        PublishStageView::Digesting => PublishActionView::Digest { path: p.path },
        PublishStageView::Uploading { params } => PublishActionView::Upload { path: p.path, params },
        _ => PublishActionView::Done,
    }
}

pub open spec fn in_stage(p: PublicationView, stage: PublishStageView) -> PublicationView {
    PublicationView { stage, ..p }
}

/// A count of milliseconds as the upload call takes it: at most the largest `u64`.
pub open spec fn millis_of(ms: u128) -> u64 {
    if ms <= u64::MAX {
        ms as u64
    } else {
        u64::MAX
    }
}

/// One step of a publication. A failed authentication ends it before
/// anything is uploaded; a refused upload target or upload ends it with an
/// upload error; an event that the stage does not wait on changes nothing.
pub open spec fn publish_step(p: PublicationView, ev: PublishEvent) -> PublicationView {
    match p.stage {
        PublishStageView::Authenticating => match ev {
            PublishEvent::Authenticated => in_stage(p, PublishStageView::Authorizing),
            PublishEvent::AuthFailed(m) => in_stage(p, PublishStageView::Failed { error: Error::RemoteAuth(m) }),
            _ => p,
        },
        PublishStageView::Authorizing => match ev {
            PublishEvent::UploadTargetGranted => in_stage(p, PublishStageView::Digesting),
            PublishEvent::UploadTargetRefused(m) => in_stage(
                p,
                PublishStageView::Failed { error: Error::RemoteUpload(m) },
            ),
            _ => p,
        },
        PublishStageView::Digesting => match ev {
            PublishEvent::Digested { digest, size, modified_millis } => in_stage(
                p,
                PublishStageView::Uploading {
                    params: UploadParamsView {
                        file_name: object_name(digest@),
                        size,
                        content_type: p.content_type,
                        last_modified_millis: millis_of(modified_millis),
                    },
                },
            ),
            PublishEvent::DigestFailed(e) => in_stage(p, PublishStageView::Failed { error: e }),
            _ => p,
        },
        PublishStageView::Uploading { params } => match ev {
            PublishEvent::Uploaded => in_stage(
                p,
                PublishStageView::Published { uri: object_uri(params.file_name) },
            ),
            PublishEvent::UploadFailed(m) => in_stage(
                p,
                PublishStageView::Failed { error: Error::RemoteUpload(m) },
            ),
            _ => p,
        },
        _ => p,
    }
}

/// A publication run through the events in order.
pub open spec fn publish_run(p: PublicationView, evs: Seq<PublishEvent>) -> PublicationView
    decreases evs.len(),
{
    if evs.len() == 0 {
        p
    } else {
        publish_run(publish_step(p, evs[0]), evs.drop_first())
    }
}

proof fn lemma_over_stays(p: PublicationView, evs: Seq<PublishEvent>)
    requires
        p.stage is Published || p.stage is Failed,
    ensures
        publish_run(p, evs) == p,
    decreases evs.len(),
{
    if evs.len() > 0 {
        lemma_over_stays(publish_step(p, evs[0]), evs.drop_first());
    }
}

/// When the credentials are refused nothing is uploaded: whatever follows,
/// the publication is over with an authentication error and waits on no call.
pub proof fn lemma_refused_credentials_upload_nothing(
    p: PublicationView,
    m: String,
    rest: Seq<PublishEvent>,
)
    requires
        p.stage is Authenticating,
    ensures
        publish_run(publish_step(p, PublishEvent::AuthFailed(m)), rest).stage == (PublishStageView::Failed {
            error: Error::RemoteAuth(m),
        }),
        publish_pending(publish_run(publish_step(p, PublishEvent::AuthFailed(m)), rest))
            == PublishActionView::Done,
{
    lemma_over_stays(publish_step(p, PublishEvent::AuthFailed(m)), rest);
}

/// A digested file is uploaded under the name its identifier gives, and once
/// the upload went through the publication answers with the address of that
/// name, whatever follows.
pub proof fn lemma_published_address(
    p: PublicationView,
    digested: PublishEvent,
    uploaded: PublishEvent,
    rest: Seq<PublishEvent>,
)
    requires
        p.stage is Digesting,
        digested is Digested,
        uploaded is Uploaded,
    ensures
        digested matches PublishEvent::Digested { digest, .. } && publish_run(
            publish_step(publish_step(p, digested), uploaded),
            rest,
        ).stage == (PublishStageView::Published { uri: object_uri(object_name(digest@)) }),
{
    lemma_over_stays(publish_step(publish_step(p, digested), uploaded), rest);
}

fn millis(ms: u128) -> (r: u64)
    ensures
        r == millis_of(ms),
{
    if ms <= u64::MAX as u128 {
        ms as u64
    } else {
        u64::MAX
    }
}

impl Publication {
    /// A publication of `request` that has made no call yet.
    pub fn new(request: PublishRequest) -> (r: Publication)
        ensures
            r@.path == request.path@,
            r@.content_type == request.content_type@,
            r@.stage == PublishStageView::Authenticating,
    {
        Publication { request, stage: PublishStage::Authenticating }
    }

    /// The call that the publication waits on.
    pub fn action(&self) -> (r: PublishAction)
        ensures
            r@ == publish_pending(self@),
    {
        match &self.stage {
            PublishStage::Authenticating => PublishAction::Authenticate,
            PublishStage::Authorizing => PublishAction::RequestUploadTarget,
            PublishStage::Digesting => PublishAction::Digest { path: self.request.path.clone() },
            PublishStage::Uploading { params } => PublishAction::Upload {
                path: self.request.path.clone(),
                params: UploadParams {
                    file_name: params.file_name.clone(),
                    size: params.size,
                    content_type: params.content_type.clone(),
                    last_modified_millis: params.last_modified_millis,
                },
            },
            _ => PublishAction::Done,
        }
    }

    /// Takes the outcome of the call waited on and answers with the next call.
    pub fn handle(&mut self, ev: PublishEvent) -> (r: PublishAction)
        ensures
            final(self)@ == publish_step(old(self)@, ev),
            r@ == publish_pending(final(self)@),
    {
        let mut stage = PublishStage::Authenticating;
        std::mem::swap(&mut self.stage, &mut stage);
        let next = match stage {
            PublishStage::Authenticating => match ev {
                PublishEvent::Authenticated => PublishStage::Authorizing,
                PublishEvent::AuthFailed(m) => PublishStage::Failed { error: Error::RemoteAuth(m) },
                _ => PublishStage::Authenticating,
            },
            PublishStage::Authorizing => match ev {
                PublishEvent::UploadTargetGranted => PublishStage::Digesting,
                PublishEvent::UploadTargetRefused(m) => PublishStage::Failed { error: Error::RemoteUpload(m) },
                _ => PublishStage::Authorizing,
            },
            PublishStage::Digesting => match ev {
                PublishEvent::Digested { digest, size, modified_millis } => PublishStage::Uploading {
                    params: UploadParams {
                        file_name: object_name_for(&digest),
                        size,
                        content_type: self.request.content_type.clone(),
                        last_modified_millis: millis(modified_millis),
                    },
                },
                PublishEvent::DigestFailed(e) => PublishStage::Failed { error: e },
                _ => PublishStage::Digesting,
            },
            PublishStage::Uploading { params } => match ev {
                PublishEvent::Uploaded => PublishStage::Published { uri: object_uri_for(&params.file_name) },
                PublishEvent::UploadFailed(m) => PublishStage::Failed { error: Error::RemoteUpload(m) },
                _ => PublishStage::Uploading { params },
            },
            other => other,
        };
        self.stage = next;
        self.action()
    }

    /// The address of the published object, or the error that ended the
    /// publication; nothing while it is under way.
    pub fn outcome(self) -> (r: Option<Result<String, Error>>)
        ensures
            match self@.stage {
                PublishStageView::Published { uri } => r matches Some(Ok(u)) && u@ == uri,
                PublishStageView::Failed { error } => r == Some(Err::<String, Error>(error)),
                _ => r is None,
            },
    {
        match self.stage {
            PublishStage::Published { uri } => Some(Ok(uri)),
            PublishStage::Failed { error } => Some(Err(error)),
            _ => None,
        }
    }
}

} // verus!
