use edge_grammar::grammar::language;
use edge_grammar::grammar::GrammarProvider;

#[test]
fn accessor_is_idempotent() {
    let p = GrammarProvider::new(7);
    let h1 = language(&p);
    let h2 = language(&p);
    assert_eq!(h1, h2);
    assert_eq!(h1.grammar_id(), h2.grammar_id());
}

#[test]
fn handle_reports_the_providers_grammar() {
    let p = GrammarProvider::new(42);
    let h = language(&p);
    assert_eq!(h.grammar_id(), 42);
}

#[test]
fn many_readers_agree_on_the_grammar() {
    let p = GrammarProvider::new(9);
    let readers: Vec<u64> = (0..8).map(|_| language(&p).grammar_id()).collect();
    for id in readers {
        assert_eq!(id, 9);
    }
}

#[test]
fn equal_providers_yield_equal_handles() {
    let p1 = GrammarProvider::new(3);
    let p2 = GrammarProvider::new(3);
    assert_eq!(language(&p1), language(&p2));
}

#[test]
fn distinct_grammars_have_distinct_handles() {
    let p1 = GrammarProvider::new(1);
    let p2 = GrammarProvider::new(2);
    assert_ne!(language(&p1), language(&p2));
    assert_ne!(language(&p1).grammar_id(), language(&p2).grammar_id());
}

#[test]
fn handles_copy_without_losing_identity() {
    let p = GrammarProvider::new(11);
    let h = language(&p);
    let copy = h;
    assert_eq!(copy, h);
    assert_eq!(copy.grammar_id(), 11);
}
