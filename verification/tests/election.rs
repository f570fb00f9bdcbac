use raft_peer::{Action, Diverged, Logger, Peer, Receipt, Role, Signature, Vote};

fn node(endpoint: &str, peers: &[&str]) -> Peer {
    Peer::new(
        endpoint.to_string(),
        Vec::new(),
        peers.iter().map(|p| p.to_string()).collect(),
    )
}

fn vote(endpoint: &str, term: usize, granted: bool) -> Vote {
    Vote {
        granted,
        peer: Signature { endpoint: endpoint.to_string(), term, seq_id: None },
    }
}

#[test]
fn fresh_follower_waits_a_jittered_election_interval() {
    for _ in 0..20 {
        let p = node("a", &["b"]);
        let ms = p.interval().expect("a follower has a wake interval");
        assert!((100..=500).contains(&ms));
    }
}

#[test]
fn first_election_in_three_node_cluster() {
    // three nodes, all Followers at term 0 with empty logs; A's timeout
    // fires before B's and C's
    let mut a = node("a", &["b", "c"]);
    let mut b = node("b", &["a", "c"]);
    let mut c = node("c", &["a", "b"]);

    let action = a.step();
    let (term, seq_id) = match action {
        Action::Campaign { term, seq_id, timeout_ms } => {
            assert!((100..=500).contains(&timeout_ms));
            (term, seq_id)
        }
        _ => panic!("an undisturbed follower must stand for election"),
    };
    assert_eq!(term, 1);
    assert!(seq_id.is_none());
    assert!(matches!(a.role, Role::Candidate));
    assert_eq!(a.interval(), None);

    // B and C both grant: empty logs are equally up to date
    let vb = b.grant_for("a".to_string(), term, seq_id);
    let vc = c.grant_for("a".to_string(), term, seq_id);
    assert!(vb.granted);
    assert!(vc.granted);

    a.conclude_election(&vec![vb, vc]);
    match &a.role {
        Role::Leader { followers } => {
            assert_eq!(followers.len(), 2);
            for (_, diverged) in followers {
                assert_eq!(diverged.next, 0);
                assert!(diverged.matched.is_none());
            }
        }
        _ => panic!("a candidate granted every vote must take leadership"),
    }
    assert_eq!(a.logger.term(), 1);
    assert_eq!(a.interval(), Some(50));

    // nobody else leads term 1
    assert!(!matches!(b.role, Role::Leader { .. }));
    assert!(!matches!(c.role, Role::Leader { .. }));
}

#[test]
fn quorum_boundary_decides_leadership() {
    // four peers: the threshold is 4 / 2 = 2 granted votes
    let mut a = node("a", &["b", "c", "d", "e"]);
    a.step();
    assert_eq!(a.logger.term(), 1);

    // one grant short of the threshold: the election is lost, the node
    // stays a Candidate and will retry with a fresh term
    a.conclude_election(&vec![
        vote("b", 1, true),
        vote("c", 1, false),
        vote("d", 1, false),
        vote("e", 1, false),
    ]);
    assert!(matches!(a.role, Role::Candidate));
    assert_eq!(a.logger.term(), 1);

    // the retry: exactly the threshold suffices
    a.step();
    assert_eq!(a.logger.term(), 2);
    a.conclude_election(&vec![
        vote("b", 2, true),
        vote("c", 2, true),
        vote("d", 2, false),
        vote("e", 2, false),
    ]);
    assert!(matches!(a.role, Role::Leader { .. }));
}

#[test]
fn single_grant_suffices_among_two_peers() {
    let mut a = node("a", &["b", "c"]);
    a.step();
    a.conclude_election(&vec![vote("b", 1, true), vote("c", 1, false)]);
    assert!(matches!(a.role, Role::Leader { .. }));
}

#[test]
fn empty_round_keeps_candidacy() {
    let mut a = node("a", &["b", "c"]);
    a.step();
    // every peer timed out or was unreachable: no responses at all
    a.conclude_election(&Vec::new());
    assert!(matches!(a.role, Role::Candidate));
    assert_eq!(a.logger.term(), 1);
    // the next step retries with an incremented term
    let action = a.step();
    assert!(matches!(action, Action::Campaign { term: 2, .. }));
}

#[test]
fn higher_term_vote_response_demotes_candidate() {
    let mut a = node("a", &["b", "c"]);
    a.step();
    a.conclude_election(&vec![vote("b", 5, false), vote("c", 1, true)]);
    assert!(matches!(a.role, Role::Follower { .. }));
    assert_eq!(a.logger.term(), 5);
}

#[test]
fn higher_term_receipt_demotes_leader() {
    let mut a = node("a", &["b"]);
    a.step();
    a.conclude_election(&vec![vote("b", 1, true)]);
    assert!(matches!(a.role, Role::Leader { .. }));
    let action = a.step();
    assert!(matches!(action, Action::Heartbeat { term: 1 }));

    a.handle_receipt(&Receipt { success: false, term: 9, endpoint: "b".to_string() });
    assert!(matches!(a.role, Role::Follower { .. }));
    assert_eq!(a.logger.term(), 9);
    let ms = a.interval().expect("a demoted leader waits again");
    assert!((100..=500).contains(&ms));
}

#[test]
fn refused_append_backs_follower_cursor_up() {
    let mut a = Peer {
        endpoint: "a".to_string(),
        peers: vec!["b".to_string(), "c".to_string()],
        logger: Logger { term: 4, entries: Vec::new(), committed: 0, applied: 0 },
        role: Role::Leader {
            followers: vec![
                ("b".to_string(), Diverged { next: 2, matched: None }),
                ("c".to_string(), Diverged { next: 2, matched: None }),
            ],
        },
        interval: Some(50),
    };

    // a refusal at the leader's own term backs only that follower up
    a.handle_receipt(&Receipt { success: false, term: 4, endpoint: "b".to_string() });
    match &a.role {
        Role::Leader { followers } => {
            assert_eq!(followers[0].1.next, 1);
            assert_eq!(followers[1].1.next, 2);
        }
        _ => panic!("the leader stays leader at its own term"),
    }

    // an acknowledged heartbeat changes nothing
    a.handle_receipt(&Receipt { success: true, term: 4, endpoint: "c".to_string() });
    // the cursor never moves below zero
    a.handle_receipt(&Receipt { success: false, term: 4, endpoint: "b".to_string() });
    a.handle_receipt(&Receipt { success: false, term: 4, endpoint: "b".to_string() });
    match &a.role {
        Role::Leader { followers } => {
            assert_eq!(followers[0].1.next, 0);
            assert_eq!(followers[1].1.next, 2);
        }
        _ => panic!("the leader stays leader at its own term"),
    }
}

#[test]
fn stale_heartbeat_is_rejected() {
    // heartbeat append(leader = A, term = 4) reaching a Follower at term 6
    let mut f = node("b", &["a"]);
    f.logger.set_term(6).unwrap();
    let r = f.append("a".to_string(), 4);
    assert!(!r.success);
    assert_eq!(r.term, 6);
    assert_eq!(r.endpoint, "b");
    assert_eq!(f.logger.term(), 6);
}

#[test]
fn heartbeat_marks_leader_alive_and_adopts_term() {
    let mut f = node("b", &["a"]);
    let r = f.append("a".to_string(), 2);
    assert!(r.success);
    assert_eq!(r.term, 2);
    assert_eq!(f.logger.term(), 2);
    match &f.role {
        Role::Follower { voted, leader_alive } => {
            assert!(voted.is_none());
            assert!(*leader_alive);
        }
        _ => panic!("an accepted heartbeat leaves the node following"),
    }

    // a live leader suppresses the election timeout for one interval
    assert!(matches!(f.step(), Action::Wait));
    // silence for a whole further interval triggers a campaign
    assert!(matches!(f.step(), Action::Campaign { term: 3, .. }));
}

#[test]
fn heartbeat_of_equal_term_demotes_candidate() {
    let mut a = node("a", &["b"]);
    a.step();
    assert!(matches!(a.role, Role::Candidate));
    let r = a.append("b".to_string(), 1);
    assert!(r.success);
    assert!(matches!(a.role, Role::Follower { .. }));
    let ms = a.interval().expect("a yielded candidate waits again");
    assert!((100..=500).contains(&ms));
}

#[test]
fn no_two_leaders_share_a_term() {
    // B and C both time out and campaign for term 1; their requests cross
    let mut a = node("a", &["b", "c"]);
    let mut b = node("b", &["a", "c"]);
    let mut c = node("c", &["a", "b"]);
    b.step();
    c.step();

    // B's requests land first: A grants, C (a candidate itself) denies
    let vote_a_for_b = a.grant_for("b".to_string(), 1, None);
    let vote_c_for_b = c.grant_for("b".to_string(), 1, None);
    assert!(vote_a_for_b.granted);
    assert!(!vote_c_for_b.granted);

    // C's requests land second: A has spent its vote for this term
    let vote_a_for_c = a.grant_for("c".to_string(), 1, None);
    let vote_b_for_c = b.grant_for("c".to_string(), 1, None);
    assert!(!vote_a_for_c.granted);
    assert!(!vote_b_for_c.granted);

    b.conclude_election(&vec![vote_a_for_b, vote_c_for_b]);
    c.conclude_election(&vec![vote_a_for_c, vote_b_for_c]);

    let leaders = [&a, &b, &c]
        .iter()
        .filter(|p| matches!(p.role, Role::Leader { .. }))
        .count();
    assert_eq!(leaders, 1);
    assert!(matches!(b.role, Role::Leader { .. }));
}
