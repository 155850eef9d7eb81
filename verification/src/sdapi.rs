//! The generation client: what is posted to the image backend, and how its reply
//! becomes one tiled JPEG.

use vstd::prelude::*;
use vstd::string::*;
use crate::compose::{byte_seqs, bytes_result, compose_outcome, img_build, ComposeError};
use crate::decimal::{append_digits, decimal_digits};
use crate::json::{
    elements, json_of, json_string, jsons_of, member, member_of, parse, parsed_json, quote, text,
    Json,
};

verus! {

/// Where the backend listens.
pub const ENDPOINT: &'static str = "http://127.0.0.1:7860/sdapi/v1/txt2img";

/// The media type of the request body, sent as `Content-Type` and as `accept`.
pub const MEDIA_TYPE: &'static str = "application/json";

/// What goes before every user prompt.
pub const PROMPT_PREFIX: &'static str = "ultra detailed 8k cg,";

/// How many images one request asks for.
pub const BATCH_SIZE: u16 = 4;

/// The member of the reply that lists the images.
pub const IMAGES_KEY: &'static str = "images";

/// The request document up to the value of `batch_size`.
pub const PAYLOAD_HEAD: &'static str = "{\"ENSD\":31337,\"alwayson_scripts\":{},\"batch_size\":";

/// The request document between the values of `batch_size` and `prompt`.
pub const PAYLOAD_MIDDLE: &'static str = ",\"cfg_scale\":10,\"denoising_strength\":0,\
\"do_not_save_grid\":false,\"do_not_save_samples\":false,\"enable_hr\":false,\"eta\":0.68,\
\"firstphase_height\":0,\"firstphase_width\":0,\"height\":768,\"hr_resize_x\":0,\
\"hr_resize_y\":0,\"hr_scale\":2,\"hr_second_pass_steps\":0,\"hr_upscaler\":\"\",\"n_iter\":1,\
\"negative_prompt\":\" (worst quality, low quality:1.3), logo, watermark, signature, \
text,easynegative\",\"override_settings\":{},\"override_settings_restore_afterwards\":true,\
\"prompt\":";

/// The request document after the value of `prompt`.
pub const PAYLOAD_TAIL: &'static str = ",\"restore_faces\":false,\"s_churn\":0,\"s_noise\":1,\
\"s_tmax\":0,\"s_tmin\":0,\"sampler_index\":\"DDIM\",\"sampler_name\":\"DPM++ 2M Karras\",\
\"save_images\":false,\"script_args\":[],\"script_name\":\"\",\"seed\":-1,\
\"seed_resize_from_h\":-1,\"seed_resize_from_w\":-1,\"send_images\":true,\"steps\":30,\
\"styles\":[],\"subseed\":-1,\"subseed_strength\":0,\"tiling\":false,\"width\":768}";

/// The prompt that the backend gets for a user's prompt.
pub open spec fn full_prompt(prompt: Seq<char>) -> Seq<char> {
    PROMPT_PREFIX@ + prompt
}

/// The request document for a user's prompt and a number of images: a JSON object
/// with its members in the order of their names, in which `batch_size` is `count` and
/// `prompt` is the string literal of [`full_prompt`].
pub open spec fn payload_text(prompt: Seq<char>, count: nat) -> Seq<char> {
    PAYLOAD_HEAD@ + decimal_digits(count) + PAYLOAD_MIDDLE@ + json_string(full_prompt(prompt))
        + PAYLOAD_TAIL@
}

/// The prompt sent to the backend: the fixed prefix, then the user's prompt.
pub fn prompt_for(prompt: &str) -> (full: String)
    ensures
        full@ == full_prompt(prompt@),
{
    let mut full = String::from_str(PROMPT_PREFIX);
    full.append(prompt);
    full
}

/// The body of the request that asks the backend for `count` images of `prompt`.
pub fn get_json_body(prompt: &str, count: u16) -> (body: String)
    ensures
        body@ == payload_text(prompt@, count as nat),
{
    let prompts = prompt_for(prompt);
    let mut body = String::from_str(PAYLOAD_HEAD);
    append_digits(&mut body, count as u64);
    body.append(PAYLOAD_MIDDLE);
    let literal = quote(prompts.as_str());
    body.append(literal.as_str());
    body.append(PAYLOAD_TAIL);
    body
}

#[verifier::external_type_specification]
#[verifier::external_body]
pub struct ExDecodeError(base64::DecodeError);

/// The bytes that the standard, padded base64 engine decodes from `text`, `None` where
/// it refuses the text.
pub uninterp spec fn base64_decoded(text: Seq<char>) -> Option<Seq<u8>>;

/// `Engine::decode` of `base64::engine::general_purpose::STANDARD`: the bytes are what
/// [`base64_decoded`] names, and the call fails exactly where that is `None`.
#[verifier::external_body]
fn decode_base64(text: &str) -> (r: Result<Vec<u8>, base64::DecodeError>)
    ensures
        match r {
            Ok(bytes) => base64_decoded(text@) == Some(bytes@),
            Err(_) => base64_decoded(text@) is None,
        },
{
    base64::Engine::decode(&base64::engine::general_purpose::STANDARD, text)
}

/// Why a request to the backend gave no artifact.
#[derive(Debug, Clone, Copy, PartialEq, Eq, Structural)]
pub enum GenerationError {
    /// The backend answered with a status outside 200 to 299.
    Status,
    /// The reply is no JSON document.
    NotJson,
    /// The reply has no member `images` that is an array of strings.
    NoImages,
    /// One of the strings is not base64.
    NotBase64,
    /// No reply came: the request could not be sent, or its answer not read.
    Unreachable,
    /// The images could not be composed.
    Compose(ComposeError),
}

/// Whether an HTTP status reports success.
pub open spec fn status_ok(status: u16) -> bool {
    200 <= status <= 299
}

/// Whether every one of `items` is a string.
pub open spec fn all_text(items: Seq<Json>) -> bool {
    forall|i: int| 0 <= i < items.len() ==> (#[trigger] items[i]) is Text
}

/// The texts of `items`.
pub open spec fn texts_of(items: Seq<Json>) -> Seq<Seq<char>> {
    Seq::new(
        items.len(),
        |i: int|
            match items[i] {
                Json::Text(s) => s,
                _ => Seq::empty(),
            },
    )
}

/// The strings listed under `images` in a reply; `None` where the reply is no object,
/// has no such member, or the member is not an array of strings only.
pub open spec fn image_texts(doc: Json) -> Option<Seq<Seq<char>>> {
    match member_of(doc, IMAGES_KEY@) {
        Some(Json::List(items)) => if all_text(items) {
            Some(texts_of(items))
        } else {
            None
        },
        _ => None,
    }
}

/// Whether every one of `texts` is base64.
pub open spec fn all_base64(texts: Seq<Seq<char>>) -> bool {
    forall|i: int| 0 <= i < texts.len() ==> (#[trigger] base64_decoded(texts[i])) is Some
}

/// The bytes that each of `texts` encodes.
pub open spec fn bytes_of(texts: Seq<Seq<char>>) -> Seq<Seq<u8>> {
    Seq::new(texts.len(), |i: int| base64_decoded(texts[i]).unwrap())
}

/// The texts that a vector of string slices holds.
pub open spec fn text_seqs(texts: Seq<&str>) -> Seq<Seq<char>> {
    Seq::new(texts.len(), |i: int| texts[i]@)
}

/// What becomes of the images listed in a reply document.
pub open spec fn document_outcome(doc: Json) -> Result<Seq<u8>, GenerationError> {
    match image_texts(doc) {
        None => Err(GenerationError::NoImages),
        Some(texts) => if !all_base64(texts) {
            Err(GenerationError::NotBase64)
        } else {
            match compose_outcome(bytes_of(texts)) {
                Ok(artifact) => Ok(artifact),
                Err(error) => Err(GenerationError::Compose(error)),
            }
        },
    }
}

/// What becomes of a reply of the backend: the artifact, or why there is none.
pub open spec fn generation_outcome(status: u16, body: Seq<u8>) -> Result<
    Seq<u8>,
    GenerationError,
> {
    if !status_ok(status) {
        Err(GenerationError::Status)
    } else {
        match parsed_json(body) {
            None => Err(GenerationError::NotJson),
            Some(doc) => document_outcome(doc),
        }
    }
}

/// The strings listed under `images` in a reply.
pub fn images_in<'a>(doc: &'a serde_json::Value) -> (r: Option<Vec<&'a str>>)
    ensures
        match r {
            Some(texts) => image_texts(json_of(*doc)) == Some(text_seqs(texts@)),
            None => image_texts(json_of(*doc)) is None,
        },
{
    let listed = match member(doc, IMAGES_KEY) {
        Some(listed) => listed,
        None => {
            return None;
        },
    };
    let items = match elements(listed) {
        Some(items) => items,
        None => {
            return None;
        },
    };
    let ghost docs = jsons_of(items@);
    let mut texts: Vec<&'a str> = Vec::new();
    let mut i: usize = 0;
    while i < items.len()
        invariant
            i <= items.len(),
            texts.len() == i,
            docs == jsons_of(items@),
            member_of(json_of(*doc), IMAGES_KEY@) == Some(Json::List(docs)),
            forall|j: int| 0 <= j < i ==> #[trigger] docs[j] == Json::Text(texts@[j]@),
        decreases items.len() - i,
    {
        match text(&items[i]) {
            Some(s) => {
                texts.push(s);
            },
            None => {
                assert(!(docs[i as int] is Text));
                return None;
            },
        }
        i += 1;
    }
    assert(all_text(docs));
    assert(texts_of(docs) =~= text_seqs(texts@));
    Some(texts)
}

/// Decodes each of `texts` from base64.
pub fn decode_images(texts: &Vec<&str>) -> (r: Option<Vec<Vec<u8>>>)
    ensures
        match r {
            Some(images) => all_base64(text_seqs(texts@)) && byte_seqs(images@) == bytes_of(
                text_seqs(texts@),
            ),
            None => !all_base64(text_seqs(texts@)),
        },
{
    let mut images: Vec<Vec<u8>> = Vec::new();
    let mut i: usize = 0;
    while i < texts.len()
        invariant
            i <= texts.len(),
            images.len() == i,
            forall|j: int|
                0 <= j < i ==> base64_decoded(#[trigger] text_seqs(texts@)[j]) == Some(
                    images@[j]@,
                ),
        decreases texts.len() - i,
    {
        match decode_base64(texts[i]) {
            Ok(bytes) => {
                images.push(bytes);
            },
            Err(_) => {
                assert(base64_decoded(text_seqs(texts@)[i as int]) is None);
                return None;
            },
        }
        i += 1;
    }
    assert(byte_seqs(images@) =~= bytes_of(text_seqs(texts@)));
    Some(images)
}

/// Turns a reply document into the artifact: the images listed in it, decoded and tiled.
pub fn artifact_from(doc: &serde_json::Value) -> (r: Result<Vec<u8>, GenerationError>)
    ensures
        bytes_result(r) == document_outcome(json_of(*doc)),
{
    let texts = match images_in(doc) {
        Some(texts) => texts,
        None => {
            return Err(GenerationError::NoImages);
        },
    };
    let images = match decode_images(&texts) {
        Some(images) => images,
        None => {
            return Err(GenerationError::NotBase64);
        },
    };
    match img_build(&images) {
        Ok(artifact) => Ok(artifact),
        Err(error) => Err(GenerationError::Compose(error)),
    }
}

/// A request to the backend, ready to be posted.
#[derive(Debug, PartialEq, Eq)]
pub struct GenerationRequest {
    /// Where to post it.
    pub url: String,
    /// The value of the `Content-Type` header.
    pub content_type: String,
    /// The value of the `accept` header.
    pub accept: String,
    /// The request document.
    pub body: String,
}

/// What a request holds, as plain text.
pub struct RequestModel {
    pub url: Seq<char>,
    pub content_type: Seq<char>,
    pub accept: Seq<char>,
    pub body: Seq<char>,
}

impl View for GenerationRequest {
    type V = RequestModel;

    open spec fn view(&self) -> RequestModel {
        RequestModel {
            url: self.url@,
            content_type: self.content_type@,
            accept: self.accept@,
            body: self.body@,
        }
    }
}

/// The request for the images of a user's prompt.
pub open spec fn request_for(prompt: Seq<char>) -> RequestModel {
    RequestModel {
        url: ENDPOINT@,
        content_type: MEDIA_TYPE@,
        accept: MEDIA_TYPE@,
        body: payload_text(prompt, BATCH_SIZE as nat),
    }
}

/// The client of the image backend. It holds no connection: the caller posts what
/// [`SDApi::request`] returns and hands the reply to [`SDApi::txt2img`].
#[derive(Debug, Clone, Copy)]
pub struct SDApi {}

impl SDApi {
    /// A client.
    pub fn init() -> (api: SDApi)
        ensures
            api == (SDApi {  }),
    {
        SDApi {  }
    }

    /// The request that asks the backend for the images of `prompt`.
    pub fn request(&self, prompt: &str) -> (request: GenerationRequest)
        ensures
            request@ == request_for(prompt@),
    {
        GenerationRequest {
            url: String::from_str(ENDPOINT),
            content_type: String::from_str(MEDIA_TYPE),
            accept: String::from_str(MEDIA_TYPE),
            body: get_json_body(prompt, BATCH_SIZE),
        }
    }

    /// Turns the backend's reply into the artifact: a reply with a status of success
    /// whose body is a JSON object with base64 images under `images` gives those
    /// images tiled into one JPEG, and anything else gives the reason why not.
    pub fn txt2img(self, status: u16, body: &[u8]) -> (r: Result<Vec<u8>, GenerationError>)
        ensures
            bytes_result(r) == generation_outcome(status, body@),
    {
        if status < 200 || status > 299 {
            return Err(GenerationError::Status);
        }
        match parse(body) {
            Ok(doc) => artifact_from(&doc),
            Err(_) => Err(GenerationError::NotJson),
        }
    }
}

} // verus!
