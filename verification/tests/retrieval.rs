use blockito::vector::{rank, Embedding, EMBEDDINGS_PATH};

const FACTS: &str = "cats purr\ncats sleep\ndogs bark\ncats climb\nbirds sing\nfish swim\ncats hunt\n";

#[test]
fn new_makes_one_chunk_per_line() {
    let e = Embedding::new(FACTS);
    assert_eq!(e.len(), 7);
    assert_eq!(e.chunk(0), "cats purr");
    assert_eq!(e.chunk(6), "cats hunt");
}

#[test]
fn retrieve_defaults_to_five_closest() {
    let e = Embedding::new(FACTS);
    let keys = vec![10, 70, 30, 50, 20, 60, 40];
    let found = e.retrieve(&keys, None);
    let idx: Vec<usize> = found.iter().map(|p| p.1).collect();
    assert_eq!(idx, vec![1, 5, 3, 6, 2]);
    assert_eq!(found[0].0, "cats sleep");
    assert_eq!(found[1].0, "fish swim");
}

#[test]
fn retrieve_keeps_order_of_equal_similarities() {
    let e = Embedding::new(FACTS);
    let keys = vec![5, 9, 5, 9, 1, 5, 0];
    let found = e.retrieve(&keys, Some(4));
    let idx: Vec<usize> = found.iter().map(|p| p.1).collect();
    assert_eq!(idx, vec![1, 3, 0, 2]);
}

#[test]
fn retrieve_all_and_none() {
    let e = Embedding::new("a\nb\nc");
    assert_eq!(e.retrieve(&vec![1, 2, 3], Some(0)).len(), 0);
    let all: Vec<String> = e.retrieve(&vec![1, 3, 2], Some(3)).into_iter().map(|p| p.0).collect();
    assert_eq!(all, vec!["b".to_string(), "c".to_string(), "a".to_string()]);
}

#[test]
fn fewer_chunks_give_a_prefix() {
    let keys = vec![3, 8, 8, 1, 9, 2, 8];
    let long = rank(&keys, 6);
    for n in 0..=6 {
        assert_eq!(rank(&keys, n), long[..n].to_vec());
    }
}

#[test]
fn ranking_scores_do_not_increase() {
    let keys = vec![4, 4, 7, 0, 7, 3, 9, 1];
    let r = rank(&keys, 5);
    assert_eq!(r, vec![6, 2, 4, 0, 1]);
    for w in r.windows(2) {
        assert!(keys[w[0]] >= keys[w[1]]);
    }
    for x in 0..keys.len() {
        if !r.contains(&x) {
            assert!(r.iter().all(|&i| keys[x] <= keys[i]));
        }
    }
}

#[test]
fn ranking_is_the_stable_sort_prefix() {
    let keys: Vec<u64> = vec![12, 5, 12, 99, 0, 5, 12, 40, 3, 99];
    let mut sorted: Vec<usize> = (0..keys.len()).collect();
    sorted.sort_by(|a, b| keys[*b].cmp(&keys[*a]));
    assert_eq!(rank(&keys, keys.len()), sorted);
}

#[test]
fn embedding_request_names_endpoint_and_model() {
    let (url, req) = Embedding::embedding_request("cats purr");
    assert_eq!(url, "http://127.0.0.1:8765/v1/embeddings");
    assert!(url.ends_with(EMBEDDINGS_PATH));
    assert_eq!(req.input, "cats purr");
    assert_eq!(req.model, "blockito-embedding");
}
