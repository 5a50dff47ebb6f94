use link_probe::tokens::{join_tokens, same_text, split_tokens};
use link_probe::xiinfo::XIInfo;

fn s(v: &str) -> Option<String> {
    Some(v.to_string())
}

#[test]
fn full_header_line_decodes_every_field() {
    let info = XIInfo::parse(&"X-iinfo: 1A2B 3 RT q abc r 200,500 Uxyz".to_string()).unwrap();
    assert_eq!(info.req_and_resp_id, s("1A2B"));
    assert_eq!(info.cache_status, s("3"));
    assert_eq!(info.response_time, s("RT"));
    assert_eq!(info.query_string, s("q abc"));
    assert_eq!(info.resp_code_and_size, s("r 200,500"));
    assert_eq!(info.agent_code, s("Uxyz"));
}

#[test]
fn line_without_header_name_gives_none() {
    assert!(XIInfo::parse(&"not-x-iinfo: foo".to_string()).is_none());
    assert!(XIInfo::parse(&"".to_string()).is_none());
    assert!(XIInfo::parse(&"X-iinfo 1 2".to_string()).is_none());
}

#[test]
fn header_name_may_stand_inside_the_line() {
    let info = XIInfo::parse(&"header X-iinfo:id C".to_string()).unwrap();
    assert_eq!(info.req_and_resp_id, s("id"));
    assert_eq!(info.cache_status, s("C"));
}

#[test]
fn single_token_sets_only_the_id() {
    let info = XIInfo::parse(&"X-iinfo: A".to_string()).unwrap();
    assert_eq!(info.req_and_resp_id, s("A"));
    assert_eq!(info.cache_status, None);
    assert_eq!(info.response_time, None);
    assert_eq!(info.agent_code, None);
}

#[test]
fn two_tokens_set_id_and_cache_status() {
    let info = XIInfo::parse(&"X-iinfo: A B".to_string()).unwrap();
    assert_eq!(info.req_and_resp_id, s("A"));
    assert_eq!(info.cache_status, s("B"));
    assert_eq!(info.query_string, None);
}

#[test]
fn empty_value_gives_an_empty_id() {
    let info = XIInfo::parse(&"X-iinfo:".to_string()).unwrap();
    assert_eq!(info.req_and_resp_id, s(""));
    assert_eq!(info.cache_status, None);
}

#[test]
fn positional_tokens_are_not_markers() {
    let info = XIInfo::decode_value("U1 q Uend");
    assert_eq!(info.req_and_resp_id, s("U1"));
    assert_eq!(info.cache_status, s("q"));
    assert_eq!(info.resp_code_and_size, s(""));
    assert_eq!(info.agent_code, s("Uend"));
}

#[test]
fn decoding_twice_gives_the_same_record() {
    let line = "X-iinfo: 9-1 N 5 RT q a r 304,0 U7".to_string();
    let a = XIInfo::parse(&line).unwrap();
    let b = XIInfo::parse(&line).unwrap();
    assert_eq!(a.req_and_resp_id, b.req_and_resp_id);
    assert_eq!(a.cache_status, b.cache_status);
    assert_eq!(a.response_time, b.response_time);
    assert_eq!(a.query_string, b.query_string);
    assert_eq!(a.resp_code_and_size, b.resp_code_and_size);
    assert_eq!(a.agent_code, b.agent_code);
}

#[test]
fn markers_open_the_next_field() {
    let info = XIInfo::decode_value("id s 12 RT q a b r c");
    assert_eq!(info.response_time, s("12 RT"));
    assert_eq!(info.query_string, s("q a b"));
    assert_eq!(info.resp_code_and_size, None);
    assert_eq!(info.agent_code, None);
}

#[test]
fn marker_with_nothing_gathered_flushes_empty() {
    let info = XIInfo::decode_value("id s q r Ux");
    assert_eq!(info.response_time, s(""));
    assert_eq!(info.query_string, s("q"));
    assert_eq!(info.resp_code_and_size, s("r"));
    assert_eq!(info.agent_code, s("Ux"));
}

#[test]
fn agent_code_ends_the_decoding() {
    let info = XIInfo::decode_value("a b c U1 d q U2");
    assert_eq!(info.resp_code_and_size, s("c"));
    assert_eq!(info.agent_code, s("U1"));
    assert_eq!(info.response_time, None);
}

#[test]
fn white_space_after_name_is_skipped_and_value_ends_at_newline() {
    let info = XIInfo::parse(&"X-iinfo: \t \n a b\nnext line".to_string()).unwrap();
    assert_eq!(info.req_and_resp_id, s("a"));
    assert_eq!(info.cache_status, s("b"));
}

#[test]
fn double_space_gives_an_empty_token() {
    let info = XIInfo::decode_value("a  b");
    assert_eq!(info.req_and_resp_id, s("a"));
    assert_eq!(info.cache_status, s(""));
}

#[test]
fn cache_hit_is_reported_for_any_code() {
    let info = XIInfo::decode_value("id N");
    assert!(info.is_cache_hit());
}

#[test]
fn split_and_join_tokens() {
    let toks = split_tokens("a  b c");
    assert_eq!(toks, vec!["a".to_string(), "".to_string(), "b".to_string(), "c".to_string()]);
    assert_eq!(join_tokens(&toks), "a  b c".to_string());
    assert_eq!(split_tokens(""), vec!["".to_string()]);
    assert_eq!(join_tokens(&Vec::new()), "".to_string());
    assert!(same_text("RT", "RT"));
    assert!(!same_text("RT", "R"));
    assert!(!same_text("ab", "ac"));
}
