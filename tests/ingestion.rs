use std::collections::HashSet;

use swiftide::ingestion::IngestionNode;
use swiftide::pipeline::{Phase, Pipeline, RunError, RunStatus, StageForm};
use swiftide::transformers::{MetadataQACode, DEFAULT_PROMPT, QA_KEY};
use swiftide::integrations::qdrant::{point_of, PointError, Qdrant, QdrantBuildError};
use swiftide::stage::{
    collect_invocations, collect_persisted, filter_unseen, windows, Dispatch, Invocation,
    Persisted,
};

fn node(path: &str, chunk: &str) -> IngestionNode {
    IngestionNode::new(path.to_string(), chunk.to_string())
}

fn attr<'a>(n: &'a IngestionNode, key: &str) -> Option<&'a str> {
    n.metadata
        .iter()
        .find(|(k, _)| k == key)
        .map(|(_, v)| v.as_str())
}

fn payload<'a>(fields: &'a [(String, String)], key: &str) -> Option<&'a str> {
    fields.iter().find(|(k, _)| k == key).map(|(_, v)| v.as_str())
}

/// One pass of load -> chunk -> cache filter -> store, with `cache` as the cache.
fn run_once(corpus: &[(&str, &str)], cache: &mut HashSet<u64>) -> usize {
    let mut pipeline = Pipeline::new()
        .then("chunk".to_string(), None)
        .filter_cached("cache".to_string())
        .then_store_with("store".to_string(), None);
    assert!(pipeline.start().is_ok());

    let loaded: Vec<IngestionNode> = corpus.iter().map(|(o, c)| node(o, c)).collect();
    let calls: Vec<Invocation> = loaded
        .iter()
        .map(|n| Invocation {
            path: n.path.clone(),
            result: Ok(n.split(vec![n.chunk.clone()])),
        })
        .collect();
    let (chunks, errors) = collect_invocations(&"chunk".to_string(), calls);
    pipeline.record(errors);

    let lookups = chunks
        .iter()
        .map(|n| Ok(cache.contains(&n.calculate_hash())))
        .collect();
    let fresh = filter_unseen(chunks, lookups);
    let stored = fresh.len();

    let persisted = fresh
        .iter()
        .map(|n| Persisted {
            path: n.path.clone(),
            fingerprints: vec![n.calculate_hash()],
            result: Ok(()),
        })
        .collect();
    let (marks, errors) = collect_persisted(&"store".to_string(), persisted);
    pipeline.record(errors);
    cache.extend(marks);
    assert!(matches!(pipeline.finish(), Ok(RunStatus::Finished)));
    stored
}

#[test]
fn test_ingestion_pipeline() {
    let code = "fn main() { println!(\"Hello, World!\"); }";
    let answer = "\n\nHello there, how may I assist you today?";

    let mut pipeline = Pipeline::new().then("chunk".to_string(), None);
    let qa = MetadataQACode::new(());
    pipeline = pipeline.then("metadata_qa_code".to_string(), qa.concurrency());
    pipeline = pipeline.filter_cached("cache".to_string());
    pipeline = match pipeline.then_in_batch("embed".to_string(), 1) {
        Ok(p) => p,
        Err(_) => panic!("batch size 1 is valid"),
    };
    pipeline = pipeline.then_store_with("qdrant".to_string(), None);
    assert_eq!(pipeline.stages().len(), 5);
    assert!(pipeline.start().is_ok());

    // load and chunk: a single chunk for the whole file
    let loaded = node("main.rs", code);
    let chunks = loaded.split(vec![loaded.chunk.clone()]);
    let (chunks, errors) = collect_invocations(
        &"chunk".to_string(),
        vec![Invocation { path: loaded.path.clone(), result: Ok(chunks) }],
    );
    pipeline.record(errors);
    assert_eq!(chunks.len(), 1);

    // enrich with the model's answer
    let prompt = qa.prompt_for(&chunks[0]);
    assert!(prompt.contains(code));
    let enriched: Vec<Invocation> = chunks
        .into_iter()
        .map(|n| Invocation {
            path: n.path.clone(),
            result: Ok(vec![qa.transform_node(n, answer.to_string())]),
        })
        .collect();
    let (enriched, errors) = collect_invocations(&"metadata_qa_code".to_string(), enriched);
    pipeline.record(errors);

    // empty cache: everything passes
    let lookups = enriched.iter().map(|_| Ok(false)).collect();
    let fresh = filter_unseen(enriched, lookups);
    assert_eq!(fresh.len(), 1);

    // embed in batches of one
    let batches = windows(fresh, 1);
    assert_eq!(batches.len(), 1);
    let embedded: Vec<Invocation> = batches
        .into_iter()
        .map(|batch| Invocation {
            path: batch[0].path.clone(),
            result: Ok(batch
                .into_iter()
                .map(|mut n| {
                    n.vector = Some(vec![0_f32.to_bits(); 1536]);
                    n
                })
                .collect()),
        })
        .collect();
    let (embedded, errors) = collect_invocations(&"embed".to_string(), embedded);
    pipeline.record(errors);

    // store
    let mut points = Vec::new();
    for n in embedded {
        match point_of(n) {
            Ok(p) => points.push(p),
            Err(_) => panic!("embedded node has a vector"),
        }
    }
    assert!(matches!(pipeline.finish(), Ok(RunStatus::Finished)));
    assert_eq!(points.len(), 1);
    let first = &points[0];
    assert!(payload(&first.payload, "path").unwrap().ends_with("main.rs"));
    assert_eq!(payload(&first.payload, "content").unwrap(), code);
    assert_eq!(payload(&first.payload, "Questions and Answers").unwrap(), answer);
    assert_eq!(first.vector.len(), 1536);
}

#[test]
fn fingerprint_ignores_attributes_vector_and_id() {
    let a = node("src/lib.rs", "pub fn f() {}");
    let mut b = node("src/lib.rs", "pub fn f() {}");
    b.id = Some(7);
    b.vector = Some(vec![1.5_f32.to_bits(), 2.0_f32.to_bits()]);
    b.insert_attribute("summary".to_string(), "a function".to_string());
    assert_eq!(a.calculate_hash(), b.calculate_hash());
    assert_eq!(a.calculate_hash(), a.calculate_hash());
}

#[test]
fn fingerprint_depends_on_content_and_origin() {
    let a = node("src/lib.rs", "pub fn f() {}");
    let b = node("src/lib.rs", "pub fn g() {}");
    let c = node("src/main.rs", "pub fn f() {}");
    assert_ne!(a.calculate_hash(), b.calculate_hash());
    assert_ne!(a.calculate_hash(), c.calculate_hash());
}

#[test]
fn rerun_with_shared_cache_stores_nothing() {
    let corpus = [("a.rs", "fn a() {}"), ("b.rs", "fn b() {}"), ("c.rs", "fn c() {}")];
    let mut cache = HashSet::new();
    assert_eq!(run_once(&corpus, &mut cache), 3);
    assert_eq!(run_once(&corpus, &mut cache), 0);
}

#[test]
fn split_keeps_origin() {
    let parent = node("lib/parser.rs", "fn a() {}\nfn b() {}\nfn c() {}");
    let pieces = vec!["fn a() {}".to_string(), "fn b() {}".to_string(), "fn c() {}".to_string()];
    let children = parent.split(pieces.clone());
    assert_eq!(children.len(), 3);
    for (child, piece) in children.iter().zip(pieces.iter()) {
        assert_eq!(child.path, "lib/parser.rs");
        assert_eq!(&child.chunk, piece);
        assert!(child.vector.is_none());
        assert!(child.metadata.is_empty());
    }
    assert!(parent.split(Vec::new()).is_empty());
}

#[test]
fn batch_windows_round_up() {
    let make = |n: usize| (0..n).map(|i| node("f.rs", &format!("chunk {i}"))).collect::<Vec<_>>();

    let ws = windows(make(7), 3);
    assert_eq!(ws.iter().map(|w| w.len()).collect::<Vec<_>>(), vec![3, 3, 1]);
    assert_eq!(ws[2][0].chunk, "chunk 6");

    let ws = windows(make(6), 3);
    assert_eq!(ws.iter().map(|w| w.len()).collect::<Vec<_>>(), vec![3, 3]);

    let ws = windows(make(2), 5);
    assert_eq!(ws.iter().map(|w| w.len()).collect::<Vec<_>>(), vec![2]);

    assert!(windows(make(0), 4).is_empty());
}

#[test]
fn single_failure_is_isolated() {
    let mut pipeline = Pipeline::new().then("qa".to_string(), Some(4));
    assert!(pipeline.start().is_ok());
    let inputs: Vec<IngestionNode> = (0..5).map(|i| node(&format!("f{i}.rs"), "x")).collect();
    let calls: Vec<Invocation> = inputs
        .into_iter()
        .enumerate()
        .map(|(i, n)| Invocation {
            path: n.path.clone(),
            result: if i == 2 { Err("model unavailable".to_string()) } else { Ok(vec![n]) },
        })
        .collect();
    let (out, errors) = collect_invocations(&"qa".to_string(), calls);
    assert_eq!(out.len(), 4);
    assert_eq!(
        out.iter().map(|n| n.path.as_str()).collect::<Vec<_>>(),
        vec!["f0.rs", "f1.rs", "f3.rs", "f4.rs"]
    );
    assert_eq!(errors.len(), 1);
    assert_eq!(errors[0].stage, "qa");
    assert_eq!(errors[0].path, "f2.rs");
    assert_eq!(errors[0].message, "model unavailable");
    pipeline.record(errors);
    match pipeline.finish() {
        Err(RunError::Nodes { errors, cancelled }) => {
            assert_eq!(errors.len(), 1);
            assert!(!cancelled);
        }
        _ => panic!("a node failed, so the run fails"),
    }
    assert!(pipeline.phase() == Phase::Completed);
}

#[test]
fn as_embeddable_lists_attributes_then_content() {
    let mut n = node("a.rs", "fn a() {}");
    assert_eq!(n.as_embeddable(), "\nfn a() {}");
    n.insert_attribute("lang".to_string(), "rust".to_string());
    n.insert_attribute("qa".to_string(), "none".to_string());
    assert_eq!(n.as_embeddable(), "lang: rust\nqa: none\nfn a() {}");
}

#[test]
fn insert_attribute_replaces_existing_key() {
    let mut n = node("a.rs", "x");
    n.insert_attribute("k".to_string(), "1".to_string());
    n.insert_attribute("j".to_string(), "2".to_string());
    n.insert_attribute("k".to_string(), "3".to_string());
    assert_eq!(n.metadata.len(), 2);
    assert_eq!(attr(&n, "k"), Some("3"));
    assert_eq!(attr(&n, "j"), Some("2"));
}

#[test]
fn prompt_fills_question_count_and_code() {
    let qa = MetadataQACode::new(());
    let n = node("a.rs", "fn answer() -> u32 { 42 }");
    let prompt = qa.prompt_for(&n);
    assert!(prompt.contains("* Generate only 5 questions and answers."));
    assert!(prompt.contains("# Code\n```\nfn answer() -> u32 { 42 }\n```\n"));
    assert!(!prompt.contains("{code}"));
    assert!(!prompt.contains("{questions}"));
    assert!(prompt.starts_with("\n# Task\nYour task is to generate questions and answers"));
    assert_eq!(
        prompt.len(),
        DEFAULT_PROMPT.len() - "{questions}".len() + 1 - "{code}".len() + n.chunk.len()
    );
}

#[test]
fn qa_transformer_settings() {
    let qa = MetadataQACode::new(17_u8);
    assert_eq!(qa.concurrency(), None);
    assert_eq!(*qa.client(), 17);
    let qa = qa.with_concurrency(8);
    assert_eq!(qa.concurrency(), Some(8));
    assert_eq!(*qa.client(), 17);
}

#[test]
fn qa_transform_node_keeps_answer() {
    let qa = MetadataQACode::new(());
    let mut n = node("a.rs", "x");
    n.insert_attribute("lang".to_string(), "rust".to_string());
    let out = qa.transform_node(n, "Q1: ?\nA1: !".to_string());
    assert_eq!(attr(&out, QA_KEY), Some("Q1: ?\nA1: !"));
    assert_eq!(attr(&out, "lang"), Some("rust"));
    assert_eq!(out.chunk, "x");
}

#[test]
fn filter_drops_seen_and_keeps_failed_lookups() {
    let nodes = vec![node("a", "1"), node("b", "2"), node("c", "3")];
    let out = filter_unseen(nodes, vec![Ok(true), Err("cache down".to_string()), Ok(false)]);
    assert_eq!(out.iter().map(|n| n.path.as_str()).collect::<Vec<_>>(), vec!["b", "c"]);
}

#[test]
fn store_marks_only_persisted_nodes() {
    let calls = vec![
        Persisted { path: "a".to_string(), fingerprints: vec![1, 2], result: Ok(()) },
        Persisted { path: "c".to_string(), fingerprints: vec![3], result: Err("down".to_string()) },
        Persisted { path: "d".to_string(), fingerprints: vec![4], result: Ok(()) },
    ];
    let (marks, errors) = collect_persisted(&"store".to_string(), calls);
    assert_eq!(marks, vec![1, 2, 4]);
    assert_eq!(errors.len(), 1);
    assert_eq!(errors[0].path, "c");
    assert_eq!(errors[0].message, "down");
}

#[test]
fn zero_batch_size_is_refused() {
    assert!(Pipeline::new().then_in_batch("embed".to_string(), 0).is_err());
    assert!(Pipeline::new().then_in_batch("embed".to_string(), 2).is_ok());
}

#[test]
fn stage_settings_are_normalised() {
    let p = Pipeline::new()
        .then("a".to_string(), None)
        .then("b".to_string(), Some(0))
        .then("c".to_string(), Some(6))
        .then_store_with("s".to_string(), Some(0));
    let forms: Vec<_> = p.stages().iter().map(|s| &s.form).collect();
    assert!(matches!(forms[0], StageForm::Unit { concurrency: 1 }));
    assert!(matches!(forms[1], StageForm::Unit { concurrency: 1 }));
    assert!(matches!(forms[2], StageForm::Unit { concurrency: 6 }));
    assert!(matches!(forms[3], StageForm::Store { batch_size: None }));
    let p = Pipeline::new().then_store_with("s".to_string(), Some(10));
    assert!(matches!(p.stages()[0].form, StageForm::Store { batch_size: Some(10) }));
}

#[test]
fn a_run_happens_once() {
    let mut p = Pipeline::new();
    assert!(p.phase() == Phase::Built);
    assert!(p.start().is_ok());
    assert!(p.phase() == Phase::Running);
    assert!(matches!(p.start(), Err(RunError::AlreadyStarted)));
    assert!(matches!(p.finish(), Ok(RunStatus::Finished)));
    assert!(matches!(p.start(), Err(RunError::AlreadyStarted)));
}

#[test]
fn cancelled_run_reports_marker() {
    let mut p = Pipeline::new();
    assert!(p.start().is_ok());
    assert!(p.accepts_work());
    p.cancel();
    assert!(!p.accepts_work());
    assert!(matches!(p.finish(), Ok(RunStatus::Cancelled)));
}

#[test]
fn loader_failure_aborts() {
    let mut p = Pipeline::new().then("chunk".to_string(), None);
    assert!(p.start().is_ok());
    match p.abort("no such directory".to_string()) {
        RunError::Load(m) => assert_eq!(m, "no such directory"),
        _ => panic!("expected a load error"),
    }
    assert!(p.phase() == Phase::Completed);
}

#[test]
fn point_needs_a_vector() {
    assert!(matches!(point_of(node("a.rs", "x")), Err(PointError::MissingVector)));
    let mut n = node("a.rs", "x");
    n.insert_attribute("lang".to_string(), "rust".to_string());
    n.vector = Some(vec![1, 2, 3]);
    let id = n.calculate_hash();
    let p = match point_of(n) {
        Ok(p) => p,
        Err(_) => panic!("the node has a vector"),
    };
    assert_eq!(p.id, id);
    assert_eq!(p.vector, vec![1, 2, 3]);
    let keys: Vec<&str> = p.payload.iter().map(|(k, _)| k.as_str()).collect();
    assert_eq!(keys, vec!["path", "content", "lang"]);
}

#[test]
fn qdrant_builder_needs_a_client() {
    assert!(matches!(
        Qdrant::builder().vector_size(1536).build(),
        Err(QdrantBuildError::MissingClient)
    ));
}

#[test]
fn dispatch_never_exceeds_bound() {
    let mut d = Dispatch::new(2);
    assert!(d.can_start());
    d.start();
    d.start();
    assert_eq!(d.in_flight(), 2);
    assert!(!d.can_start());
    d.finish();
    assert!(d.can_start());
    assert_eq!(d.in_flight(), 1);
}
