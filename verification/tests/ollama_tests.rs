use jwst_cosmos::json::Json;
use jwst_cosmos::services::ollama::{
    is_vision_name, vision_models, LineBuffer, ModelDetails, OllamaModel, OllamaService,
    PullProgress,
};
use jwst_cosmos::services::{HttpReply, Method, Payload, ServiceError};

fn model(name: &str, size: u64) -> OllamaModel {
    OllamaModel { name: name.to_string(), size, digest: String::new(), modified_at: None, details: None }
}

fn ok(body: &str) -> HttpReply {
    HttpReply { status: 200, body: body.to_string() }
}

fn connected() -> OllamaService {
    let mut service = OllamaService::new();
    service.set_base_url("http://localhost:19000".to_string());
    service
}

fn reference_size_str(size: u64) -> String {
    let gb = size as f64 / 1_073_741_824.0;
    if gb >= 1.0 {
        format!("{:.1} GB", gb)
    } else {
        let mb = size as f64 / 1_048_576.0;
        format!("{:.0} MB", mb)
    }
}

#[test]
fn sizes_read_in_gigabytes_or_megabytes() {
    assert_eq!(model("m", 0).size_str(), "0 MB");
    assert_eq!(model("m", 524_288).size_str(), "0 MB");
    assert_eq!(model("m", 524_289).size_str(), "1 MB");
    assert_eq!(model("m", 1_572_864).size_str(), "2 MB");
    assert_eq!(model("m", 2_621_440).size_str(), "2 MB");
    assert_eq!(model("m", 1_073_741_823).size_str(), "1024 MB");
    assert_eq!(model("m", 1_073_741_824).size_str(), "1.0 GB");
    assert_eq!(model("m", 4_661_211_808).size_str(), "4.3 GB");
    assert_eq!(model("m", u64::MAX).size_str(), "17179869184.0 GB");
}

#[test]
fn sizes_agree_with_float_formatting() {
    let mut cases: Vec<u64> = vec![0, 1, 524_287, 524_288, 524_289, 1_048_576, u64::MAX];
    for k in 0..64u64 {
        cases.push(k * 524_288);
        cases.push(k * 524_288 + 1);
        cases.push(k * 524_288 - (k > 0) as u64);
        cases.push((1 << 30) + k * 53_687_091);
        cases.push((1 << 30) + k * 53_687_091 + 1);
        cases.push((1u64 << 30) * (2 * k + 1) / 20 + (1 << 30));
    }
    let mut x: u64 = 0x2545_F491_4F6C_DD1D;
    for _ in 0..2000 {
        x ^= x << 13;
        x ^= x >> 7;
        x ^= x << 17;
        cases.push(x);
        cases.push(x >> 30);
        cases.push(x >> 36);
    }
    for size in cases {
        assert_eq!(model("m", size).size_str(), reference_size_str(size), "{size}");
    }
}

#[test]
fn vision_models_go_by_their_names() {
    for name in ["llava:13b", "LLaVA", "moondream2", "bakllava", "llama3.2-Vision:11b", "x-VISION-y"] {
        assert!(model(name, 0).is_vision_model(), "{name}");
    }
    for name in ["llama3", "mistral", "lava", "visio", ""] {
        assert!(!model(name, 0).is_vision_model(), "{name}");
    }
    assert!(is_vision_name("my-llava"));
    assert!(!is_vision_name("MY-LLAVA"));
    assert!(model("MY-LLAVA", 0).is_vision_model());
}

#[test]
fn vision_models_keep_their_order() {
    let all = vec![model("llava", 1), model("llama3", 2), model("Moondream", 3), model("phi", 4)];
    assert_eq!(vision_models(&all), vec![model("llava", 1), model("Moondream", 3)]);
    assert_eq!(vision_models(&Vec::new()), Vec::new());
}

#[test]
fn models_are_read_from_documents() {
    let doc = Json::Object(vec![("name".to_string(), Json::Text("phi".to_string()))]);
    assert_eq!(OllamaModel::from_json(&doc), Some(model("phi", 0)));
    assert_eq!(OllamaModel::from_json(&Json::Object(Vec::new())), None);
    assert_eq!(OllamaModel::from_json(&Json::List(Vec::new())), None);
    assert_eq!(
        ModelDetails::from_json(&Json::Object(Vec::new())),
        Some(ModelDetails { format: None, family: None, parameter_size: None, quantization_level: None })
    );
    assert_eq!(ModelDetails::from_json(&Json::Null), None);
    assert_eq!(model("a", 5).copy(), model("a", 5));
}

#[test]
fn model_lists_are_read_from_answers() {
    let body = r#"{"models":[
        {"name":"llava:13b","size":8011256494,"digest":"abc","modified_at":"2024-05-01T10:00:00Z",
         "details":{"format":"gguf","family":"llama","parameter_size":"13B","quantization_level":"Q4_0","families":["llama","clip"]}},
        {"name":"phi3","model":"phi3"},
        {"name":"x","size":0,"digest":"","modified_at":null,"details":null}
    ]}"#;
    let models = OllamaService::models(&ok(body)).unwrap();
    assert_eq!(models.len(), 3);
    assert_eq!(
        models[0],
        OllamaModel {
            name: "llava:13b".to_string(),
            size: 8011256494,
            digest: "abc".to_string(),
            modified_at: Some("2024-05-01T10:00:00Z".to_string()),
            details: Some(ModelDetails {
                format: Some("gguf".to_string()),
                family: Some("llama".to_string()),
                parameter_size: Some("13B".to_string()),
                quantization_level: Some("Q4_0".to_string()),
            }),
        }
    );
    assert_eq!(models[1], model("phi3", 0));
    assert_eq!(models[2], model("x", 0));
    assert_eq!(models[0].size_str(), "7.5 GB");
    assert_eq!(OllamaService::list_vision_models(&ok(body)).unwrap(), vec![models[0].clone()]);
    assert_eq!(OllamaService::models(&ok(r#"{"models":[]}"#)), Ok(Vec::new()));
}

#[test]
fn malformed_model_lists_are_protocol_errors() {
    let bodies = [
        "",
        "{}",
        "[]",
        r#"{"models":null}"#,
        r#"{"models":{}}"#,
        r#"{"models":[{"size":1}]}"#,
        r#"{"models":[{"name":"a"},{"name":7}]}"#,
        r#"{"models":[{"name":"a","size":-1}]}"#,
        r#"{"models":[{"name":"a","size":null}]}"#,
        r#"{"models":[{"name":"a","size":1.5}]}"#,
        r#"{"models":[{"name":"a","digest":null}]}"#,
        r#"{"models":[{"name":"a","modified_at":5}]}"#,
        r#"{"models":[{"name":"a","details":[]}]}"#,
        r#"{"models":[{"name":"a","details":{"format":1}}]}"#,
        r#"{"models":["a"]}"#,
    ];
    for body in bodies {
        assert_eq!(OllamaService::models(&ok(body)), Err(ServiceError::Protocol), "{body}");
        assert_eq!(OllamaService::list_vision_models(&ok(body)), Err(ServiceError::Protocol), "{body}");
    }
    assert_eq!(
        OllamaService::models(&HttpReply { status: 404, body: "nope".to_string() }),
        Err(ServiceError::Rejected { status: 404, body: "nope".to_string() })
    );
}

#[test]
fn model_requests_need_a_base_url() {
    let service = OllamaService::new();
    assert_eq!(service.get_base_url(), Err(ServiceError::NotConnected));
    assert_eq!(service.probe().err(), Some(ServiceError::NotConnected));
    assert_eq!(service.list_models().err(), Some(ServiceError::NotConnected));
    assert_eq!(service.generate("m", "p", None).err(), Some(ServiceError::NotConnected));
    assert_eq!(service.analyze_image("m", b"x", "p").err(), Some(ServiceError::NotConnected));
    assert_eq!(service.pull_model("m").err(), Some(ServiceError::NotConnected));
    assert_eq!(service.delete_model("m").err(), Some(ServiceError::NotConnected));
    assert_eq!(service.show_model("m").err(), Some(ServiceError::NotConnected));
    assert!(!service.is_connected(Some(&ok(""))));
    assert!(OllamaService::default().base_url.is_none());
}

#[test]
fn model_requests_go_to_the_endpoints() {
    let service = connected();
    assert_eq!(service.get_base_url(), Ok("http://localhost:19000".to_string()));
    let probe = service.probe().unwrap();
    assert_eq!((probe.method, probe.url.as_str()), (Method::Get, "http://localhost:19000/api/tags"));
    let list = service.list_models().unwrap();
    assert_eq!((list.method, list.url.as_str()), (Method::Get, "http://localhost:19000/api/tags"));
    let delete = service.delete_model("phi3").unwrap();
    assert_eq!((delete.method, delete.url.as_str()), (Method::Delete, "http://localhost:19000/api/delete"));
    assert_eq!(delete.payload, Payload::Name("phi3".to_string()));
    let show = service.show_model("phi3").unwrap();
    assert_eq!((show.method, show.url.as_str()), (Method::Post, "http://localhost:19000/api/show"));
    assert_eq!(show.payload, Payload::Name("phi3".to_string()));
    assert_eq!(list.payload, Payload::Empty);
    let (request, pull) = service.pull_model("llava:13b").unwrap();
    assert_eq!((request.method, request.url.as_str()), (Method::Post, "http://localhost:19000/api/pull"));
    assert_eq!(pull.name, "llava:13b");
    assert!(pull.stream);
    assert!(service.is_connected(Some(&ok("{}"))));
    assert!(!service.is_connected(Some(&HttpReply { status: 502, body: String::new() })));
    assert!(!service.is_connected(None));
}

#[test]
fn generate_asks_for_one_answer() {
    let service = connected();
    let (request, payload) = service.generate("llava", "describe", None).unwrap();
    assert_eq!((request.method, request.url.as_str()), (Method::Post, "http://localhost:19000/api/generate"));
    assert_eq!(payload.model, "llava");
    assert_eq!(payload.prompt, "describe");
    assert_eq!(payload.images, None);
    assert!(!payload.stream);
    let (_, with_image) = service.generate("llava", "describe", Some("aGk=".to_string())).unwrap();
    assert_eq!(with_image.images, Some(vec!["aGk=".to_string()]));
}

#[test]
fn analyze_sends_the_image_as_base64() {
    let service = connected();
    let (request, payload) = service.analyze_image("llava", b"hello world~", "what is this?").unwrap();
    assert_eq!(request.url, "http://localhost:19000/api/generate");
    assert_eq!(payload.images, Some(vec!["aGVsbG8gd29ybGR+".to_string()]));
    assert_eq!(payload.prompt, "what is this?");
    let (_, empty) = service.analyze_image("llava", b"", "p").unwrap();
    assert_eq!(empty.images, Some(vec![String::new()]));
    let (_, padded) = service.analyze_image("llava", &[0xFF, 0xFE], "p").unwrap();
    assert_eq!(padded.images, Some(vec!["//4=".to_string()]));
}

#[test]
fn generated_text_is_read_from_the_answer() {
    assert_eq!(
        OllamaService::generated(&ok(r#"{"model":"llava","response":"A spiral galaxy.","done":true}"#)),
        Ok("A spiral galaxy.".to_string())
    );
    assert_eq!(OllamaService::generated(&ok(r#"{"response":""}"#)), Ok(String::new()));
    assert_eq!(OllamaService::generated(&ok(r#"{"done":true}"#)), Err(ServiceError::Protocol));
    assert_eq!(OllamaService::generated(&ok(r#"{"response":"x","done":"yes"}"#)), Err(ServiceError::Protocol));
    assert_eq!(OllamaService::generated(&ok(r#"{"response":"x","done":null}"#)), Err(ServiceError::Protocol));
    assert_eq!(OllamaService::generated(&ok(r#"{"response":5}"#)), Err(ServiceError::Protocol));
    assert_eq!(OllamaService::generated(&ok("nothing")), Err(ServiceError::Protocol));
    assert_eq!(
        OllamaService::generated(&HttpReply { status: 500, body: "model not found".to_string() }),
        Err(ServiceError::Rejected { status: 500, body: "model not found".to_string() })
    );
}

#[test]
fn deletion_and_description_are_read() {
    assert_eq!(OllamaService::deleted(&ok("")), Ok(()));
    assert_eq!(
        OllamaService::deleted(&HttpReply { status: 404, body: "no such model".to_string() }),
        Err(ServiceError::Rejected { status: 404, body: "no such model".to_string() })
    );
    assert_eq!(
        OllamaService::shown(&ok(r#"{"name":"phi3","size":7,"details":{"family":"phi"}}"#)),
        Ok(OllamaModel {
            name: "phi3".to_string(),
            size: 7,
            digest: String::new(),
            modified_at: None,
            details: Some(ModelDetails {
                format: None,
                family: Some("phi".to_string()),
                parameter_size: None,
                quantization_level: None,
            }),
        })
    );
    assert_eq!(OllamaService::shown(&ok(r#"{"modelfile":"FROM x"}"#)), Err(ServiceError::Protocol));
    assert_eq!(
        OllamaService::shown(&HttpReply { status: 400, body: String::new() }),
        Err(ServiceError::Rejected { status: 400, body: String::new() })
    );
}

#[test]
fn line_buffer_cuts_at_newlines() {
    let mut buffer = LineBuffer::new();
    assert_eq!(buffer.push_chunk(b"{\"status\":\"pull"), Vec::<Vec<u8>>::new());
    assert_eq!(buffer.pending, b"{\"status\":\"pull".to_vec());
    assert_eq!(
        buffer.push_chunk(b"ing\"}\n{\"status\":\"done\"}\n{\"sta"),
        vec![b"{\"status\":\"pulling\"}\n".to_vec(), b"{\"status\":\"done\"}\n".to_vec()]
    );
    assert_eq!(buffer.pending, b"{\"sta".to_vec());
    assert_eq!(buffer.push_chunk(b""), Vec::<Vec<u8>>::new());
    assert_eq!(buffer.push_chunk(b"tus\":\"x\"}\n\n"), vec![b"{\"status\":\"x\"}\n".to_vec(), b"\n".to_vec()]);
    assert!(buffer.pending.is_empty());
}

#[test]
fn line_buffer_keeps_every_byte() {
    let data: Vec<u8> = (0..600u32).map(|i| if i % 7 == 3 { b'\n' } else { (i % 251) as u8 }).collect();
    for chunk_size in [1usize, 2, 5, 64, 600] {
        let mut buffer = LineBuffer::new();
        let mut seen: Vec<u8> = Vec::new();
        for chunk in data.chunks(chunk_size) {
            for line in buffer.push_chunk(chunk) {
                assert_eq!(line.last(), Some(&b'\n'));
                assert_eq!(line.iter().filter(|b| **b == b'\n').count(), 1);
                seen.extend(line);
            }
            assert!(!buffer.pending.contains(&b'\n'));
        }
        seen.extend(buffer.pending.clone());
        assert_eq!(seen, data);
    }
}

#[test]
fn line_buffer_does_not_care_where_the_pieces_end() {
    let data = b"{\"status\":\"a\"}\n{\"status\":\"b\"}\n\n{\"status\":\"c\"}\nrest";
    let mut whole = LineBuffer::new();
    let expected = whole.push_chunk(data);
    assert_eq!(expected.len(), 4);
    assert_eq!(whole.pending, b"rest".to_vec());
    for cut in 0..=data.len() {
        let mut buffer = LineBuffer::new();
        let mut lines = buffer.push_chunk(&data[..cut]);
        lines.extend(buffer.push_chunk(&data[cut..]));
        assert_eq!(lines, expected, "cut at {cut}");
        assert_eq!(buffer.pending, whole.pending);
    }
}

#[test]
fn pull_progress_is_read_line_by_line() {
    assert_eq!(
        PullProgress::from_line(b"{\"status\":\"pulling abc\",\"digest\":\"sha256:abc\",\"total\":100,\"completed\":40}\n"),
        Some(PullProgress {
            status: "pulling abc".to_string(),
            digest: Some("sha256:abc".to_string()),
            total: Some(100),
            completed: Some(40),
        })
    );
    assert_eq!(
        PullProgress::from_line(b"{}"),
        Some(PullProgress { status: String::new(), digest: None, total: None, completed: None })
    );
    assert_eq!(
        PullProgress::from_line(b"  {\"status\":\"success\",\"total\":null}  \r\n"),
        Some(PullProgress { status: "success".to_string(), digest: None, total: None, completed: None })
    );
    for line in [
        &b"\n"[..],
        b"",
        b"pulling",
        b"[]",
        b"{\"status\":5}",
        b"{\"status\":\"x\",\"total\":-1}",
        b"{\"status\":\"x\",\"completed\":\"1\"}",
        b"{\"status\":\"x\"",
        b"{\"status\":\"\xff\"}",
    ] {
        assert_eq!(PullProgress::from_line(line), None, "{line:?}");
    }
    let doc = Json::Object(vec![("status".to_string(), Json::Text("x".to_string()))]);
    assert_eq!(PullProgress::from_json(&doc).unwrap().status, "x");
    assert_eq!(PullProgress::failed("connection refused").status, "Error: connection refused");
    assert_eq!(PullProgress::failed("x").total, None);
}
