//! Planning the download of a model: which reference is asked for, which
//! remote paths are fetched and where each remote file is written.
use crate::api::error::{Error, ModelVariant};
use crate::api::layout::{join, joined_path, local_path_of, strip_prefix};
use crate::api::types::{ModelMetadata, ModelMetadataRequest};
use crate::api::utils::{
    check_args, request_url, request_url_of, success_status, valid_reference, OpsmlPaths, SaveRoot,
};
use vstd::prelude::*;
use vstd::string::*;

verus! {

/// The name of the file that keeps a copy of the metadata.
pub open spec fn metadata_file() -> Seq<char> {
    "model-metadata.json"@
}

/// The remote directory that holds every file of the model version:
/// the model storage prefix, the repository, the name and `v` with the
/// version, parted by `/`.
pub open spec fn save_root_of(metadata: &ModelMetadata) -> Seq<char> {
    SaveRoot::Model.prefix() + seq!['/'] + metadata.model_repository@ + seq!['/']
        + metadata.model_name@ + seq!['/', 'v'] + metadata.model_version@
}

/// The remote path of the preprocessor of the model: the first that the
/// metadata names of preprocessor, tokenizer and feature extractor.
pub open spec fn preprocessor_uri_of(metadata: &ModelMetadata) -> Option<Seq<char>> {
    if metadata.preprocessor_uri is Some {
        Some(metadata.preprocessor_uri->0@)
    } else if metadata.tokenizer_uri is Some {
        Some(metadata.tokenizer_uri->0@)
    } else if metadata.feature_extractor_uri is Some {
        Some(metadata.feature_extractor_uri->0@)
    } else {
        None
    }
}

/// The remote path of the model in the form chosen by the two flags, or the
/// form that the metadata lacks. The quantized form is asked for by both
/// flags together, the onnx form by `onnx` alone; without `onnx` the trained
/// model is taken, whatever `quantize` says.
pub open spec fn model_uri_of(metadata: &ModelMetadata, onnx: bool, quantize: bool) -> Result<
    Seq<char>,
    ModelVariant,
> {
    if onnx && quantize {
        match metadata.quantized_model_uri {
            Some(uri) => Ok(uri@),
            None => Err(ModelVariant::Quantized),
        }
    } else if onnx {
        match metadata.onnx_uri {
            Some(uri) => Ok(uri@),
            None => Err(ModelVariant::Onnx),
        }
    } else {
        Ok(metadata.model_uri@)
    }
}

/// What one download fetches, derived once from the metadata and the flags.
#[derive(Debug, Clone, PartialEq, Eq)]
pub struct DownloadPlan {
    /// The remote directory against which local paths are computed.
    pub remote_root: String,
    /// The remote path of the model in the chosen form.
    pub model_uri: String,
    /// The remote path of the preprocessor, where one is asked for and named.
    pub preprocessor_uri: Option<String>,
}

impl DownloadPlan {
    /// The remote paths whose files are fetched, in the order of fetching:
    /// the preprocessor before the model.
    pub open spec fn spec_passes(&self) -> Seq<Seq<char>> {
        match self.preprocessor_uri {
            Some(uri) => seq![uri@, self.model_uri@],
            None => seq![self.model_uri@],
        }
    }

    pub fn passes(&self) -> (paths: Vec<String>)
        ensures
            paths.deep_view() == self.spec_passes(),
    {
        let mut paths: Vec<String> = Vec::new();
        match &self.preprocessor_uri {
            Some(uri) => {
                paths.push(uri.clone());
            },
            None => {},
        }
        paths.push(self.model_uri.clone());
        assert(paths.deep_view() =~= self.spec_passes());
        paths
    }
}

/// One request to fetch a model or its metadata.
#[derive(Debug, Clone, Copy, PartialEq, Eq)]
pub struct ModelDownloader<'a> {
    pub name: Option<&'a str>,
    pub version: Option<&'a str>,
    pub repository: Option<&'a str>,
    pub uid: Option<&'a str>,
    pub write_dir: &'a str,
    pub ignore_release_candidates: &'a bool,
    pub onnx: &'a bool,
    pub quantize: &'a bool,
    pub preprocessor: &'a bool,
}

impl<'a> ModelDownloader<'a> {
    /// Accepts or rejects the reference that the request gives.
    pub fn check_reference(&self) -> (checked: Result<(), Error>)
        ensures
            checked is Ok <==> valid_reference(self.name, self.repository, self.version, self.uid),
            checked is Err ==> checked == Err::<(), Error>(Error::InvalidReference),
    {
        check_args(self.name, self.repository, self.version, self.uid)
    }

    /// The body of the metadata request: the reference and the flag on
    /// release candidates, as given.
    pub fn metadata_request(&self) -> (request: ModelMetadataRequest<'a>)
        ensures
            request.name == self.name,
            request.version == self.version,
            request.repository == self.repository,
            request.uid == self.uid,
            request.ignore_release_candidates == self.ignore_release_candidates,
    {
        ModelMetadataRequest {
            name: self.name,
            version: self.version,
            repository: self.repository,
            uid: self.uid,
            ignore_release_candidates: self.ignore_release_candidates,
        }
    }

    /// The address that the metadata request is posted to.
    pub fn metadata_url(tracking_uri: &str) -> (address: Result<String, Error>)
        ensures
            match address {
                Ok(text) => request_url_of(
                    tracking_uri@ + OpsmlPaths::MetadataDownload.route(),
                    None,
                ) == Some(text@),
                Err(e) => {
                    &&& request_url_of(
                    tracking_uri@ + OpsmlPaths::MetadataDownload.route(),
                    None,
                ) is None
                    &&& e matches Error::InvalidUrl { url } && url@ == tracking_uri@
                        + OpsmlPaths::MetadataDownload.route()
                },
            },
    {
        let route = OpsmlPaths::MetadataDownload.as_str(tracking_uri);
        request_url(route.as_str(), None)
    }

    /// The local file that keeps a copy of the metadata.
    pub fn metadata_path(&self) -> (path: String)
        ensures
            path@ == joined_path(self.write_dir@, metadata_file()),
    {
        join(self.write_dir, "model-metadata.json")
    }

    /// Reads the reply to the metadata request. `parsed` is the record that
    /// the body holds, if it holds one. A failure status rejects the reply
    /// with the status and the body; a success status with an unreadable body
    /// is a malformed response.
    pub fn metadata_from_response(
        &self,
        status: u16,
        body: String,
        parsed: Option<ModelMetadata>,
    ) -> (metadata: Result<ModelMetadata, Error>)
        ensures
            match metadata {
                Ok(record) => success_status(status) && parsed == Some(record),
                Err(Error::ServerRejected { status: code, body: text }) => !success_status(status)
                    && code == status && text == body,
                Err(Error::MalformedResponse) => success_status(status) && parsed is None,
                Err(_) => false,
            },
    {
        if !(200 <= status && status < 300) {
            Err(Error::ServerRejected { status, body })
        } else {
            match parsed {
                Some(record) => Ok(record),
                None => Err(Error::MalformedResponse),
            }
        }
    }

    /// The remote path of the model in the form that the flags choose.
    pub fn get_model_uri(&self, model_metadata: &ModelMetadata) -> (uri: Result<String, Error>)
        ensures
            match uri {
                Ok(path) => model_uri_of(model_metadata, *self.onnx, *self.quantize) == Ok::<
                    Seq<char>,
                    ModelVariant,
                >(path@),
                Err(e) => model_uri_of(model_metadata, *self.onnx, *self.quantize) matches Err(
                    missing,
                ) && e == Error::MissingVariant(missing),
            },
    {
        if *self.onnx {
            if *self.quantize {
                match &model_metadata.quantized_model_uri {
                    Some(uri) => Ok(uri.clone()),
                    None => Err(Error::MissingVariant(ModelVariant::Quantized)),
                }
            } else {
                match &model_metadata.onnx_uri {
                    Some(uri) => Ok(uri.clone()),
                    None => Err(Error::MissingVariant(ModelVariant::Onnx)),
                }
            }
        } else {
            Ok(model_metadata.model_uri.clone())
        }
    }

    /// The remote path of the preprocessor that the metadata names, if any.
    pub fn get_preprocessor_uri(&self, model_metadata: &ModelMetadata) -> (uri: Option<String>)
        ensures
            uri.deep_view() == preprocessor_uri_of(model_metadata),
    {
        if model_metadata.preprocessor_uri.is_some() {
            model_metadata.preprocessor_uri.clone()
        } else if model_metadata.tokenizer_uri.is_some() {
            model_metadata.tokenizer_uri.clone()
        } else if model_metadata.feature_extractor_uri.is_some() {
            model_metadata.feature_extractor_uri.clone()
        } else {
            None
        }
    }

    /// The remote directory of the model version.
    pub fn get_save_root(&self, metadata: &ModelMetadata) -> (root: Result<String, Error>)
        ensures
            root matches Ok(path) && path@ == save_root_of(metadata),
    {
        proof {
            reveal_strlit("/");
            reveal_strlit("/v");
        }
        let mut root = String::from_str(SaveRoot::Model.as_str());
        root.append("/");
        root.append(metadata.model_repository.as_str());
        root.append("/");
        root.append(metadata.model_name.as_str());
        root.append("/v");
        root.append(metadata.model_version.as_str());
        assert("/"@ =~= seq!['/']);
        assert("/v"@ =~= seq!['/', 'v']);
        Ok(root)
    }

    /// Derives the plan of the download. It fails, before anything is
    /// fetched, exactly where the metadata lacks the form of the model that
    /// the flags ask for. The preprocessor is planned only where the request
    /// asks for it and the metadata names one.
    pub fn plan_download(&self, metadata: &ModelMetadata) -> (plan: Result<DownloadPlan, Error>)
        ensures
            match plan {
                Ok(p) => {
                    &&& p.remote_root@ == save_root_of(metadata)
                    &&& model_uri_of(metadata, *self.onnx, *self.quantize) == Ok::<
                        Seq<char>,
                        ModelVariant,
                    >(p.model_uri@)
                    &&& p.preprocessor_uri.deep_view() == if *self.preprocessor {
                        preprocessor_uri_of(metadata)
                    } else {
                        None
                    }
                },
                Err(e) => model_uri_of(metadata, *self.onnx, *self.quantize) matches Err(missing)
                    && e == Error::MissingVariant(missing),
            },
    {
        let model_uri = match self.get_model_uri(metadata) {
            Ok(uri) => uri,
            Err(e) => {
                return Err(e);
            },
        };
        let remote_root = match self.get_save_root(metadata) {
            Ok(root) => root,
            Err(e) => {
                return Err(e);
            },
        };
        let preprocessor_uri = if *self.preprocessor {
            self.get_preprocessor_uri(metadata)
        } else {
            None
        };
        Ok(DownloadPlan { remote_root, model_uri, preprocessor_uri })
    }

    /// Places the remote file `file` below the write directory, given the
    /// path `rest` that it has below the remote root, if it has one. A file
    /// that does not lie below the root has no place.
    pub fn place_below_write_dir(&self, file: &str, rest: Option<String>) -> (lpath: Result<
        String,
        Error,
    >)
        ensures
            match lpath {
                Ok(path) => rest matches Some(below) && path@ == joined_path(
                    self.write_dir@,
                    below@,
                ),
                Err(e) => {
                    &&& rest is None
                    &&& e matches Error::PathOutsideRoot { path } && path@ == file@
                },
            },
    {
        match rest {
            Some(below) => Ok(join(self.write_dir, below.as_str())),
            None => Err(Error::PathOutsideRoot { path: String::from_str(file) }),
        }
    }

    /// Where the remote file `file` of a model stored under `rpath_root` is
    /// written: below the write directory, under the path that it has below
    /// the root. A file that does not lie below the root has no place.
    pub fn local_path(&self, file: &str, rpath_root: &str) -> (lpath: Result<String, Error>)
        ensures
            match lpath {
                Ok(path) => local_path_of(self.write_dir@, file@, rpath_root@) == Some(path@),
                Err(e) => {
                    &&& local_path_of(self.write_dir@, file@, rpath_root@) is None
                    &&& e matches Error::PathOutsideRoot { path } && path@ == file@
                },
            },
    {
        self.place_below_write_dir(file, strip_prefix(file, rpath_root))
    }
}

/// Metadata that names neither an onnx nor a quantized model cannot serve a
/// request for onnx; where it names both, a request for onnx and quantize
/// gets the quantized model.
pub proof fn lemma_variant_selection(metadata: &ModelMetadata, quantize: bool)
    ensures
        metadata.onnx_uri is None && metadata.quantized_model_uri is None ==> model_uri_of(
            metadata,
            true,
            quantize,
        ) is Err,
        metadata.onnx_uri is Some && metadata.quantized_model_uri is Some ==> model_uri_of(
            metadata,
            true,
            true,
        ) == Ok::<Seq<char>, ModelVariant>(metadata.quantized_model_uri->0@),
        model_uri_of(metadata, false, quantize) == Ok::<Seq<char>, ModelVariant>(
            metadata.model_uri@,
        ),
{
}

} // verus!
