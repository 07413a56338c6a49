//! The built-in model registrations: three image models and their text
//! variants, named by the convention that the text variant of a base model
//! carries the suffix `_text`.

use vstd::prelude::*;
use crate::models::{ModelConfig, ModelManager, ModelType};

verus! {

/// A descriptor for an image model at `path` with the given input size.
pub open spec fn is_image_config(c: ModelConfig, path: Seq<char>, width: u32, height: u32) -> bool {
    &&& c.model_type == ModelType::Image
    &&& c.model_path@ == path
    &&& c.tokenizer_path is None
    &&& c.image_size == Some((width, height))
    &&& c.max_length == Some(52usize)
}

/// A descriptor for a text model at `path` with the given tokenizer and
/// maximum sequence length.
pub open spec fn is_text_config(c: ModelConfig, path: Seq<char>, tokenizer: Seq<char>, max_length: usize) -> bool {
    &&& c.model_type == ModelType::Text
    &&& c.model_path@ == path
    &&& c.tokenizer_path matches Some(t) && t@ == tokenizer
    &&& c.image_size is None
    &&& c.max_length == Some(max_length)
}

proof fn lemma_default_names_distinct()
    ensures
        "ViT-B-16__openai"@ != "ViT-B-16__openai_text"@,
        "ViT-B-16__openai"@ != "ViT-L-14__openai"@,
        "ViT-B-16__openai"@ != "ViT-L-14__openai_text"@,
        "ViT-B-16__openai"@ != "ViT-L-14-336__openai"@,
        "ViT-B-16__openai"@ != "ViT-L-14-336__openai_text"@,
        "ViT-B-16__openai_text"@ != "ViT-L-14__openai"@,
        "ViT-B-16__openai_text"@ != "ViT-L-14__openai_text"@,
        "ViT-B-16__openai_text"@ != "ViT-L-14-336__openai"@,
        "ViT-B-16__openai_text"@ != "ViT-L-14-336__openai_text"@,
        "ViT-L-14__openai"@ != "ViT-L-14__openai_text"@,
        "ViT-L-14__openai"@ != "ViT-L-14-336__openai"@,
        "ViT-L-14__openai"@ != "ViT-L-14-336__openai_text"@,
        "ViT-L-14__openai_text"@ != "ViT-L-14-336__openai"@,
        "ViT-L-14__openai_text"@ != "ViT-L-14-336__openai_text"@,
        "ViT-L-14-336__openai"@ != "ViT-L-14-336__openai_text"@,
{
    reveal_strlit("ViT-B-16__openai");
    reveal_strlit("ViT-B-16__openai_text");
    reveal_strlit("ViT-L-14__openai");
    reveal_strlit("ViT-L-14__openai_text");
    reveal_strlit("ViT-L-14-336__openai");
    reveal_strlit("ViT-L-14-336__openai_text");
    assert("ViT-B-16__openai"@.len() == 16);
    assert("ViT-B-16__openai_text"@.len() == 21);
    assert("ViT-L-14__openai"@.len() == 16);
    assert("ViT-L-14__openai_text"@.len() == 21);
    assert("ViT-L-14-336__openai"@.len() == 20);
    assert("ViT-L-14-336__openai_text"@.len() == 25);
    assert("ViT-B-16__openai"@[4] == 'B');
    assert("ViT-L-14__openai"@[4] == 'L');
    assert("ViT-B-16__openai_text"@[4] == 'B');
    assert("ViT-L-14__openai_text"@[4] == 'L');
}

/// Registers the built-in models: each base name as an image model, and its
/// `_text` companion as a text model sharing one tokenizer. Descriptors
/// registered earlier under other names survive unchanged.
pub fn register_default_models(model_manager: &mut ModelManager)
    requires
        old(model_manager).wf(),
    ensures
        final(model_manager).wf(),
        final(model_manager).cache() == old(model_manager).cache(),
        final(model_manager).configs().contains_key("ViT-B-16__openai"@),
        is_image_config(
            final(model_manager).configs()["ViT-B-16__openai"@],
            "models/ViT-B-16.img.fp32.onnx"@,
            224,
            224,
        ),
        final(model_manager).configs().contains_key("ViT-B-16__openai_text"@),
        is_text_config(
            final(model_manager).configs()["ViT-B-16__openai_text"@],
            "models/ViT-B-16.txt.fp32.onnx"@,
            "models/clip_cn_tokenizer.json"@,
            52,
        ),
        final(model_manager).configs().contains_key("ViT-L-14__openai"@),
        is_image_config(
            final(model_manager).configs()["ViT-L-14__openai"@],
            "models/ViT-L-14.img.fp32.onnx"@,
            224,
            224,
        ),
        final(model_manager).configs().contains_key("ViT-L-14__openai_text"@),
        is_text_config(
            final(model_manager).configs()["ViT-L-14__openai_text"@],
            "models/ViT-L-14.txt.fp32.onnx"@,
            "models/clip_cn_tokenizer.json"@,
            52,
        ),
        final(model_manager).configs().contains_key("ViT-L-14-336__openai"@),
        is_image_config(
            final(model_manager).configs()["ViT-L-14-336__openai"@],
            "models/ViT-L-14-336.img.fp32.onnx"@,
            336,
            336,
        ),
        final(model_manager).configs().contains_key("ViT-L-14-336__openai_text"@),
        is_text_config(
            final(model_manager).configs()["ViT-L-14-336__openai_text"@],
            "models/ViT-L-14-336.txt.fp32.onnx"@,
            "models/clip_cn_tokenizer.json"@,
            52,
        ),
        forall|k: Seq<char>| #[trigger]
            final(model_manager).configs().contains_key(k) <==> (old(
                model_manager,
            ).configs().contains_key(k) || k == "ViT-B-16__openai"@ || k == "ViT-B-16__openai_text"@
                || k == "ViT-L-14__openai"@ || k == "ViT-L-14__openai_text"@
                || k == "ViT-L-14-336__openai"@ || k == "ViT-L-14-336__openai_text"@),
        forall|k: Seq<char>|
            old(model_manager).configs().contains_key(k) && k != "ViT-B-16__openai"@ && k
                != "ViT-B-16__openai_text"@ && k != "ViT-L-14__openai"@ && k
                != "ViT-L-14__openai_text"@ && k != "ViT-L-14-336__openai"@ && k
                != "ViT-L-14-336__openai_text"@ ==> #[trigger] final(model_manager).configs()[k]
                == old(model_manager).configs()[k],
{
    model_manager.register_model(
        "ViT-B-16__openai".to_owned(),
        ModelConfig {
            model_type: ModelType::Image,
            model_path: "models/ViT-B-16.img.fp32.onnx".to_owned(),
            tokenizer_path: None,
            image_size: Some((224, 224)),
            max_length: Some(52),
        },
    );
    model_manager.register_model(
        "ViT-B-16__openai_text".to_owned(),
        ModelConfig {
            model_type: ModelType::Text,
            model_path: "models/ViT-B-16.txt.fp32.onnx".to_owned(),
            tokenizer_path: Some("models/clip_cn_tokenizer.json".to_owned()),
            image_size: None,
            max_length: Some(52),
        },
    );
    model_manager.register_model(
        "ViT-L-14__openai".to_owned(),
        ModelConfig {
            model_type: ModelType::Image,
            model_path: "models/ViT-L-14.img.fp32.onnx".to_owned(),
            tokenizer_path: None,
            image_size: Some((224, 224)),
            max_length: Some(52),
        },
    );
    model_manager.register_model(
        "ViT-L-14__openai_text".to_owned(),
        ModelConfig {
            model_type: ModelType::Text,
            model_path: "models/ViT-L-14.txt.fp32.onnx".to_owned(),
            tokenizer_path: Some("models/clip_cn_tokenizer.json".to_owned()),
            image_size: None,
            max_length: Some(52),
        },
    );
    model_manager.register_model(
        "ViT-L-14-336__openai".to_owned(),
        ModelConfig {
            model_type: ModelType::Image,
            model_path: "models/ViT-L-14-336.img.fp32.onnx".to_owned(),
            tokenizer_path: None,
            image_size: Some((336, 336)),
            max_length: Some(52),
        },
    );
    model_manager.register_model(
        "ViT-L-14-336__openai_text".to_owned(),
        ModelConfig {
            model_type: ModelType::Text,
            model_path: "models/ViT-L-14-336.txt.fp32.onnx".to_owned(),
            tokenizer_path: Some("models/clip_cn_tokenizer.json".to_owned()),
            image_size: None,
            max_length: Some(52),
        },
    );
    proof {
        lemma_default_names_distinct();
    }
}

} // verus!
