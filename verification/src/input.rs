//! What gets fed into a run.
use vstd::prelude::*;

use crate::bindings::{
    RKLLMEmbedInput, RKLLMImage, RKLLMInput, RKLLMInputPayload, RKLLMInputType,
    RKLLMMultiModalInput, RKLLMTokenInput, RKLLMVideo,
};
use crate::cstring::CString;
use crate::error::Error;
use crate::float::F32;

verus! {

/// Whether `len` numbers divide evenly into the tokens of `n_image` images of
/// `n_image_tokens` each, of which there has to be at least one.
pub open spec fn divides_evenly(len: nat, n_image: nat, n_image_tokens: nat) -> bool {
    &&& n_image > 0
    &&& n_image_tokens > 0
    &&& len % (n_image * n_image_tokens) == 0
}

/// Embedded images, for a multimodal [`Input`].
///
/// The embedding divides evenly into the tokens of the images.
#[derive(Debug, PartialEq)]
pub struct ImageInput {
    embed: Vec<F32>,
    n_image: usize,
    n_image_tokens: usize,
    image_start: CString,
    image_end: CString,
    image_content: CString,
    image_width: usize,
    image_height: usize,
}

/// What an [`ImageInput`] holds.
pub ghost struct Images {
    /// The embedding, image after image and token after token.
    pub embed: Seq<F32>,
    /// How many images there are.
    pub n_image: usize,
    /// Tokens per image.
    pub n_image_tokens: usize,
    /// The tag that opens an image.
    pub image_start: Seq<u8>,
    /// The tag that closes an image.
    pub image_end: Seq<u8>,
    /// The tag that stands for one image token.
    pub image_content: Seq<u8>,
    /// Image width in pixels.
    pub image_width: usize,
    /// Image height in pixels.
    pub image_height: usize,
}

impl Images {
    /// Whether `raw` tells the runtime about these images.
    pub open spec fn passed_as(self, raw: RKLLMImage<'_>) -> bool {
        &&& raw.image_embed@ == self.embed
        &&& raw.n_image == self.n_image
        &&& raw.n_image_tokens == self.n_image_tokens
        &&& raw.image_start@ == self.image_start
        &&& raw.image_end@ == self.image_end
        &&& raw.image_content@ == self.image_content
        &&& raw.image_width == self.image_width
        &&& raw.image_height == self.image_height
    }
}

impl View for ImageInput {
    type V = Images;

    closed spec fn view(&self) -> Images {
        Images {
            embed: self.embed@,
            n_image: self.n_image,
            n_image_tokens: self.n_image_tokens,
            image_start: self.image_start@,
            image_end: self.image_end@,
            image_content: self.image_content@,
            image_width: self.image_width,
            image_height: self.image_height,
        }
    }
}

impl ImageInput {
    #[verifier::type_invariant]
    spec fn embed_divides(self) -> bool {
        divides_evenly(self.embed@.len(), self.n_image as nat, self.n_image_tokens as nat)
    }

    /// A flat embedding buffer covering `n_image` images of `n_image_tokens`
    /// tokens each, with empty tags and no size.
    ///
    /// The width of one token's embedding follows from the length, which has to
    /// be a whole multiple of the number of tokens.
    pub fn new(embed: Vec<F32>, n_image: usize, n_image_tokens: usize) -> (r: Result<
        ImageInput,
        Error,
    >)
        ensures
            r is Ok <==> divides_evenly(embed@.len(), n_image as nat, n_image_tokens as nat),
            r matches Ok(image) ==> image@ == (Images {
                embed: embed@,
                n_image,
                n_image_tokens,
                image_start: Seq::empty(),
                image_end: Seq::empty(),
                image_content: Seq::empty(),
                image_width: 0,
                image_height: 0,
            }),
            r matches Err(e) ==> e == (Error::EmbeddingNotDivisible {
                len: embed@.len() as usize,
                n_image,
                n_image_tokens,
            }),
    {
        let len: usize = embed.len();
        if n_image == 0 || n_image_tokens == 0 {
            return Err(Error::EmbeddingNotDivisible { len, n_image, n_image_tokens });
        }
        let divides: bool = match n_image.checked_mul(n_image_tokens) {
            Some(n_tokens) => {
                assert(n_tokens > 0) by (nonlinear_arith)
                    requires
                        n_tokens == n_image * n_image_tokens,
                        n_image > 0,
                        n_image_tokens > 0,
                ;
                len % n_tokens == 0
            },
            // More tokens than any buffer can hold, so only an empty one divides.
            None => {
                proof {
                    let n_tokens: nat = (n_image as nat) * (n_image_tokens as nat);
                    assert(n_tokens > len);
                    vstd::arithmetic::div_mod::lemma_small_mod(len as nat, n_tokens);
                }
                len == 0
            },
        };
        if !divides {
            return Err(Error::EmbeddingNotDivisible { len, n_image, n_image_tokens });
        }
        Ok(
            ImageInput {
                embed,
                n_image,
                n_image_tokens,
                image_start: CString::default(),
                image_end: CString::default(),
                image_content: CString::default(),
                image_width: 0,
                image_height: 0,
            },
        )
    }

    /// The tags that frame each image in the prompt.
    pub fn tags(self, start: Vec<u8>, end: Vec<u8>, content: Vec<u8>) -> (r: Result<
        ImageInput,
        Error,
    >)
        ensures
            r is Ok <==> crate::cstring::nul_free(start@) && crate::cstring::nul_free(end@)
                && crate::cstring::nul_free(content@),
            r matches Ok(image) ==> image@ == (Images {
                image_start: start@,
                image_end: end@,
                image_content: content@,
                ..self@
            }),
            r matches Err(e) ==> if !crate::cstring::nul_free(start@) {
                crate::error::refused_nul(e, "image_start", start@)
            } else if !crate::cstring::nul_free(end@) {
                crate::error::refused_nul(e, "image_end", end@)
            } else {
                crate::error::refused_nul(e, "image_content", content@)
            },
    {
        proof {
            use_type_invariant(&self);
        }
        let image_start = match CString::new(start) {
            Ok(tag) => tag,
            Err(e) => return Err(Error::nul("image_start", &e)),
        };
        let image_end = match CString::new(end) {
            Ok(tag) => tag,
            Err(e) => return Err(Error::nul("image_end", &e)),
        };
        let image_content = match CString::new(content) {
            Ok(tag) => tag,
            Err(e) => return Err(Error::nul("image_content", &e)),
        };
        Ok(ImageInput { image_start, image_end, image_content, ..self })
    }

    /// Width and height of each image, in pixels.
    pub fn size(self, width: usize, height: usize) -> (r: ImageInput)
        ensures
            r@ == (Images { image_width: width, image_height: height, ..self@ }),
    {
        proof {
            use_type_invariant(&self);
        }
        ImageInput { image_width: width, image_height: height, ..self }
    }

    /// How many numbers embed one token.
    pub fn embed_dim(&self) -> (r: usize)
        ensures
            self@.n_image * self@.n_image_tokens > 0,
            r * (self@.n_image * self@.n_image_tokens) == self@.embed.len(),
    {
        proof {
            use_type_invariant(self);
        }
        let len: usize = self.embed.len();
        let ghost n_tokens: int = self.n_image * self.n_image_tokens;
        assert(n_tokens > 0) by (nonlinear_arith)
            requires
                n_tokens == self.n_image * self.n_image_tokens,
                self.n_image > 0,
                self.n_image_tokens > 0,
        ;
        match self.n_image.checked_mul(self.n_image_tokens) {
            Some(n_tokens) => {
                proof {
                    vstd::arithmetic::div_mod::lemma_fundamental_div_mod(
                        len as int,
                        n_tokens as int,
                    );
                    vstd::arithmetic::mul::lemma_mul_is_commutative(
                        n_tokens as int,
                        len as int / n_tokens as int,
                    );
                }
                len / n_tokens
            },
            None => {
                proof {
                    vstd::arithmetic::div_mod::lemma_small_mod(len as nat, n_tokens as nat);
                }
                0
            },
        }
    }

    /// The block that describes these images to the runtime.
    fn as_raw(&self) -> (r: RKLLMImage<'_>)
        ensures
            self@.passed_as(r),
    {
        RKLLMImage {
            image_embed: &self.embed,
            n_image_tokens: self.n_image_tokens,
            n_image: self.n_image,
            image_start: &self.image_start,
            image_end: &self.image_end,
            image_content: &self.image_content,
            image_width: self.image_width,
            image_height: self.image_height,
        }
    }
}

impl Clone for ImageInput {
    fn clone(&self) -> (r: ImageInput)
        ensures
            r@ == self@,
    {
        proof {
            use_type_invariant(self);
        }
        let embed: Vec<F32> = self.embed.clone();
        assert(embed@ =~= self.embed@);
        ImageInput {
            embed,
            n_image: self.n_image,
            n_image_tokens: self.n_image_tokens,
            image_start: self.image_start.clone(),
            image_end: self.image_end.clone(),
            image_content: self.image_content.clone(),
            image_width: self.image_width,
            image_height: self.image_height,
        }
    }
}

/// The payload of an [`Input`].
#[derive(Debug, Clone, PartialEq)]
enum Payload {
    Prompt(CString),
    Tokens(Vec<i32>),
    Embed { values: Vec<F32>, n_tokens: usize },
    MultiModal { prompt: CString, image: ImageInput },
}

/// One message handed to the model.
#[derive(Debug, Clone, PartialEq)]
pub struct Input {
    role: Option<CString>,
    enable_thinking: bool,
    payload: Payload,
}

/// What a message says.
pub ghost enum Content {
    /// A text prompt.
    Prompt(Seq<u8>),
    /// Token ids.
    Tokens(Seq<i32>),
    /// Embeddings of `n_tokens` tokens.
    Embed {
        /// The values, token after token.
        values: Seq<F32>,
        /// How many tokens they stand for.
        n_tokens: usize,
    },
    /// Text about images.
    MultiModal {
        /// The text.
        prompt: Seq<u8>,
        /// The images.
        image: Images,
    },
}

/// What an [`Input`] holds.
pub ghost struct Message {
    /// The role, where it is set.
    pub role: Option<Seq<u8>>,
    /// Whether thinking mode is on.
    pub enable_thinking: bool,
    /// What it says.
    pub content: Content,
}

impl Content {
    /// Which kind of payload carries this.
    pub open spec fn raw_type(self) -> RKLLMInputType {
        match self {
            Content::Prompt(_) => RKLLMInputType::RKLLM_INPUT_PROMPT,
            Content::Tokens(_) => RKLLMInputType::RKLLM_INPUT_TOKEN,
            Content::Embed { .. } => RKLLMInputType::RKLLM_INPUT_EMBED,
            Content::MultiModal { .. } => RKLLMInputType::RKLLM_INPUT_MULTIMODAL,
        }
    }

    /// Whether `raw` carries this.
    pub open spec fn passed_as(self, raw: RKLLMInputPayload<'_>) -> bool {
        match (self, raw) {
            (Content::Prompt(prompt), RKLLMInputPayload::Prompt(text)) => text@ == prompt,
            (Content::Tokens(tokens), RKLLMInputPayload::Token(input)) => {
                &&& input.input_ids@ == tokens
                &&& input.n_tokens == tokens.len()
            },
            (Content::Embed { values, n_tokens }, RKLLMInputPayload::Embed(input)) => {
                &&& input.embed@ == values
                &&& input.n_tokens == n_tokens
            },
            (Content::MultiModal { prompt, image }, RKLLMInputPayload::MultiModal(input)) => {
                &&& input.prompt@ == prompt
                &&& image.passed_as(input.image)
                &&& input.video.is_zeroed()
            },
            _ => false,
        }
    }
}

impl Message {
    /// A message that says `content`, with no role and thinking mode off.
    pub open spec fn saying(content: Content) -> Message {
        Message { role: None, enable_thinking: false, content }
    }

    /// Whether `raw` tells the runtime this message. The kind it names is the
    /// kind of the payload it carries.
    pub open spec fn passed_as(self, raw: RKLLMInput<'_>) -> bool {
        &&& match (self.role, raw.role) {
            (Some(role), Some(text)) => text@ == role,
            (None, None) => true,
            _ => false,
        }
        &&& raw.enable_thinking == self.enable_thinking
        &&& raw.input_type == self.content.raw_type()
        &&& self.content.passed_as(raw.payload)
    }
}

impl View for Payload {
    type V = Content;

    closed spec fn view(&self) -> Content {
        match *self {
            Payload::Prompt(prompt) => Content::Prompt(prompt@),
            Payload::Tokens(tokens) => Content::Tokens(tokens@),
            Payload::Embed { values, n_tokens } => Content::Embed { values: values@, n_tokens },
            Payload::MultiModal { prompt, image } => Content::MultiModal {
                prompt: prompt@,
                image: image@,
            },
        }
    }
}

impl View for Input {
    type V = Message;

    closed spec fn view(&self) -> Message {
        Message {
            role: match self.role {
                Some(role) => Some(role@),
                None => None,
            },
            enable_thinking: self.enable_thinking,
            content: self.payload@,
        }
    }
}

impl Input {
    /// A text prompt.
    pub fn prompt(prompt: Vec<u8>) -> (r: Result<Input, Error>)
        ensures
            r is Ok <==> crate::cstring::nul_free(prompt@),
            r matches Ok(input) ==> input@ == Message::saying(Content::Prompt(prompt@)),
            r matches Err(e) ==> crate::error::refused_nul(e, "prompt", prompt@),
    {
        match CString::new(prompt) {
            Ok(prompt) => Ok(Input::with_payload(Payload::Prompt(prompt))),
            Err(e) => Err(Error::nul("prompt", &e)),
        }
    }

    /// A sequence of token ids, bypassing the tokenizer.
    pub fn tokens(tokens: Vec<i32>) -> (r: Input)
        ensures
            r@ == Message::saying(Content::Tokens(tokens@)),
    {
        Input::with_payload(Payload::Tokens(tokens))
    }

    /// A flat embedding buffer of `n_tokens * n_embed` values.
    pub fn embeddings(values: Vec<F32>, n_tokens: usize) -> (r: Input)
        ensures
            r@ == Message::saying(Content::Embed { values: values@, n_tokens }),
    {
        Input::with_payload(Payload::Embed { values, n_tokens })
    }

    /// A text prompt about images.
    pub fn multimodal(prompt: Vec<u8>, image: ImageInput) -> (r: Result<Input, Error>)
        ensures
            r is Ok <==> crate::cstring::nul_free(prompt@),
            r matches Ok(input) ==> input@ == Message::saying(
                Content::MultiModal { prompt: prompt@, image: image@ },
            ),
            r matches Err(e) ==> crate::error::refused_nul(e, "prompt", prompt@),
    {
        match CString::new(prompt) {
            Ok(prompt) => Ok(Input::with_payload(Payload::MultiModal { prompt, image })),
            Err(e) => Err(Error::nul("prompt", &e)),
        }
    }

    fn with_payload(payload: Payload) -> (r: Input)
        ensures
            r@ == Message::saying(payload@),
    {
        Input { role: None, enable_thinking: false, payload }
    }

    /// Sets the message role, such as `user` or `tool`.
    ///
    /// Left unset, the runtime applies its own default.
    pub fn role(self, role: Vec<u8>) -> (r: Result<Input, Error>)
        ensures
            r is Ok <==> crate::cstring::nul_free(role@),
            r matches Ok(input) ==> input@ == (Message { role: Some(role@), ..self@ }),
            r matches Err(e) ==> crate::error::refused_nul(e, "role", role@),
    {
        match CString::new(role) {
            Ok(role) => Ok(Input { role: Some(role), ..self }),
            Err(e) => Err(Error::nul("role", &e)),
        }
    }

    /// Turns on thinking mode, which Qwen3 models understand.
    pub fn enable_thinking(self, enabled: bool) -> (r: Input)
        ensures
            r@ == (Message { enable_thinking: enabled, ..self@ }),
    {
        Input { enable_thinking: enabled, ..self }
    }

    /// The message as the runtime takes it, pointing into this `Input`'s own
    /// storage.
    pub fn as_raw(&self) -> (r: RKLLMInput<'_>)
        ensures
            self@.passed_as(r),
    {
        let (input_type, payload) = match &self.payload {
            Payload::Prompt(prompt) => (
                RKLLMInputType::RKLLM_INPUT_PROMPT,
                RKLLMInputPayload::Prompt(prompt),
            ),
            Payload::Tokens(tokens) => (
                RKLLMInputType::RKLLM_INPUT_TOKEN,
                RKLLMInputPayload::Token(
                    RKLLMTokenInput { input_ids: tokens, n_tokens: tokens.len() },
                ),
            ),
            Payload::Embed { values, n_tokens } => (
                RKLLMInputType::RKLLM_INPUT_EMBED,
                RKLLMInputPayload::Embed(RKLLMEmbedInput { embed: values, n_tokens: *n_tokens }),
            ),
            Payload::MultiModal { prompt, image } => (
                RKLLMInputType::RKLLM_INPUT_MULTIMODAL,
                RKLLMInputPayload::MultiModal(
                    RKLLMMultiModalInput {
                        prompt,
                        image: image.as_raw(),
                        // The unused half still has to be told apart from garbage.
                        video: RKLLMVideo::zeroed(),
                    },
                ),
            ),
        };
        RKLLMInput {
            role: self.role.as_ref(),
            enable_thinking: self.enable_thinking,
            input_type,
            payload,
        }
    }
}

/// What the runtime is told about the kind of a payload is true of it, so it
/// never reads one kind as another.
pub proof fn the_kind_matches_the_payload(message: Message, raw: RKLLMInput<'_>)
    requires
        message.passed_as(raw),
    ensures
        raw.input_type is RKLLM_INPUT_PROMPT <==> raw.payload is Prompt,
        raw.input_type is RKLLM_INPUT_TOKEN <==> raw.payload is Token,
        raw.input_type is RKLLM_INPUT_EMBED <==> raw.payload is Embed,
        raw.input_type is RKLLM_INPUT_MULTIMODAL <==> raw.payload is MultiModal,
{
}

/// The runtime can tell any two messages apart: what it is told of one is not
/// what it is told of another.
pub proof fn messages_are_told_apart(a: Message, b: Message, raw: RKLLMInput<'_>)
    requires
        a.passed_as(raw),
        b.passed_as(raw),
    ensures
        a == b,
{
}

/// What a message says arrives whole, under its own name: its role, whether it
/// thinks, and every part of its content.
pub proof fn messages_arrive_whole(message: Message, raw: RKLLMInput<'_>)
    requires
        message.passed_as(raw),
    ensures
        raw.role is Some <==> message.role is Some,
        message.role matches Some(role) ==> raw.role->0@ == role,
        raw.enable_thinking == message.enable_thinking,
        message.content matches Content::Prompt(prompt) ==> {
            &&& raw.input_type is RKLLM_INPUT_PROMPT
            &&& raw.payload is Prompt
            &&& raw.payload->Prompt_0@ == prompt
        },
        message.content matches Content::Tokens(tokens) ==> {
            &&& raw.input_type is RKLLM_INPUT_TOKEN
            &&& raw.payload is Token
            &&& raw.payload->Token_0.input_ids@ == tokens
            &&& raw.payload->Token_0.n_tokens == tokens.len()
        },
        message.content matches Content::Embed { values, n_tokens } ==> {
            &&& raw.input_type is RKLLM_INPUT_EMBED
            &&& raw.payload is Embed
            &&& raw.payload->Embed_0.embed@ == values
            &&& raw.payload->Embed_0.n_tokens == n_tokens
        },
        message.content matches Content::MultiModal { prompt, image } ==> {
            &&& raw.input_type is RKLLM_INPUT_MULTIMODAL
            &&& raw.payload is MultiModal
            &&& raw.payload->MultiModal_0.prompt@ == prompt
            &&& raw.payload->MultiModal_0.image.image_embed@ == image.embed
            &&& raw.payload->MultiModal_0.image.n_image == image.n_image
            &&& raw.payload->MultiModal_0.image.n_image_tokens == image.n_image_tokens
            &&& raw.payload->MultiModal_0.image.image_width == image.image_width
            &&& raw.payload->MultiModal_0.image.image_height == image.image_height
            &&& raw.payload->MultiModal_0.image.image_start@ == image.image_start
            &&& raw.payload->MultiModal_0.image.image_end@ == image.image_end
            &&& raw.payload->MultiModal_0.image.image_content@ == image.image_content
        },
{
}

/// A message about images says that there is no video: nothing is pointed at, and
/// nothing is counted.
pub proof fn there_is_no_video(message: Message, raw: RKLLMInput<'_>)
    requires
        message.passed_as(raw),
        message.content is MultiModal,
    ensures
        raw.payload->MultiModal_0.video.video_embed is None,
        raw.payload->MultiModal_0.video.video_start is None,
        raw.payload->MultiModal_0.video.video_end is None,
        raw.payload->MultiModal_0.video.video_content is None,
        raw.payload->MultiModal_0.video.n_video == 0,
        raw.payload->MultiModal_0.video.n_frame_tokens == 0,
        raw.payload->MultiModal_0.video.n_frame_per_video == 0,
        raw.payload->MultiModal_0.video.frame_width == 0,
        raw.payload->MultiModal_0.video.frame_height == 0,
{
}

/// A message says what it was made to say, and nothing else: it has no role, and
/// does not think.
pub proof fn a_message_says_what_it_was_given()
    ensures
        forall|prompt: Vec<u8>, r: Result<Input, Error>|
            #[trigger] call_ensures(Input::prompt, (prompt,), r) ==> {
                &&& r is Err <==> exists|i: int| 0 <= i < prompt@.len() && prompt@[i] == 0
                &&& r is Ok ==> r->Ok_0@.content == Content::Prompt(prompt@)
                    && r->Ok_0@.role is None && !r->Ok_0@.enable_thinking
            },
        forall|tokens: Vec<i32>, r: Input|
            #[trigger] call_ensures(Input::tokens, (tokens,), r) ==> {
                &&& r@.content == Content::Tokens(tokens@)
                &&& r@.role is None && !r@.enable_thinking
            },
        forall|values: Vec<F32>, n_tokens: usize, r: Input|
            #[trigger] call_ensures(Input::embeddings, (values, n_tokens), r) ==> {
                &&& r@.content == (Content::Embed { values: values@, n_tokens })
                &&& r@.role is None && !r@.enable_thinking
            },
        forall|prompt: Vec<u8>, image: ImageInput, r: Result<Input, Error>|
            #[trigger] call_ensures(Input::multimodal, (prompt, image), r) ==> {
                &&& r is Err <==> exists|i: int| 0 <= i < prompt@.len() && prompt@[i] == 0
                &&& r is Ok ==> r->Ok_0@.content == (Content::MultiModal {
                    prompt: prompt@,
                    image: image@,
                }) && r->Ok_0@.role is None && !r->Ok_0@.enable_thinking
            },
{
}

/// A role and thinking mode are set on their own: each leaves the rest of the
/// message as it was.
pub proof fn a_role_changes_only_itself(input: Input)
    ensures
        forall|role: Vec<u8>, r: Result<Input, Error>|
            #[trigger] call_ensures(Input::role, (input, role), r) ==> {
                &&& r is Err <==> exists|i: int| 0 <= i < role@.len() && role@[i] == 0
                &&& r is Ok ==> r->Ok_0@ == (Message { role: Some(role@), ..input@ })
            },
        forall|enabled: bool, r: Input|
            #[trigger] call_ensures(Input::enable_thinking, (input, enabled), r) ==> r@ == (
            Message { enable_thinking: enabled, ..input@ }),
{
}

/// Images are taken exactly when there is some width at which their tokens fill the
/// embedding, and there are tokens at all. They keep the embedding and both counts
/// as given, with empty tags and no size.
pub proof fn images_fill_their_embedding(
    embed: Vec<F32>,
    n_image: usize,
    n_image_tokens: usize,
    r: Result<ImageInput, Error>,
)
    requires
        call_ensures(ImageInput::new, (embed, n_image, n_image_tokens), r),
    ensures
        r is Ok <==> n_image > 0 && n_image_tokens > 0 && exists|width: int|
            #[trigger] (width * (n_image * n_image_tokens)) == embed@.len(),
        r matches Ok(image) ==> {
            &&& image@.embed == embed@
            &&& image@.n_image == n_image
            &&& image@.n_image_tokens == n_image_tokens
            &&& image@.image_start.len() == 0
            &&& image@.image_end.len() == 0
            &&& image@.image_content.len() == 0
            &&& image@.image_width == 0
            &&& image@.image_height == 0
        },
        r matches Err(e) ==> e is EmbeddingNotDivisible && e->len == embed@.len()
            && e->n_image == n_image && e->n_image_tokens == n_image_tokens,
{
    assert(embed.len() == embed@.len());
    let len = embed@.len() as int;
    let n = n_image * n_image_tokens;
    if n_image > 0 && n_image_tokens > 0 {
        assert(n > 0) by (nonlinear_arith)
            requires
                n == n_image * n_image_tokens,
                n_image > 0,
                n_image_tokens > 0,
        ;
        vstd::arithmetic::div_mod::lemma_fundamental_div_mod(len, n);
        vstd::arithmetic::mul::lemma_mul_is_commutative(n, len / n);
        if len % n == 0 {
            assert((len / n) * n == len);
        }
        if exists|width: int| #[trigger] (width * n) == len {
            let width = choose|width: int| #[trigger] (width * n) == len;
            vstd::arithmetic::div_mod::lemma_mod_multiples_basic(width, n);
        }
    }
}

/// Tags and size are set on their own, each under its own name.
pub proof fn tags_and_size_change_only_themselves(image: ImageInput)
    ensures
        forall|start: Vec<u8>, end: Vec<u8>, content: Vec<u8>, r: Result<ImageInput, Error>|
            #[trigger] call_ensures(ImageInput::tags, (image, start, end, content), r) && r is Ok
                ==> r->Ok_0@ == (Images {
                image_start: start@,
                image_end: end@,
                image_content: content@,
                ..image@
            }),
        forall|width: usize, height: usize, r: ImageInput|
            #[trigger] call_ensures(ImageInput::size, (image, width, height), r) ==> r@ == (Images {
                image_width: width,
                image_height: height,
                ..image@
            }),
{
}

} // verus!
