use task_pool::queue::{clear_pending_jobs, drain_all, next_task, run_pool_model, seeded_queue};

#[test]
fn clear_pending_jobs_empties_the_queue() {
    let mut q = seeded_queue(&vec![1, 2, 3]);
    clear_pending_jobs(&mut q);
    assert_eq!(next_task(&mut q), None);
}

#[test]
fn drain_pops_each_id_exactly_once_in_push_order() {
    let ids: Vec<u32> = (0..10).collect();
    let mut q = seeded_queue(&ids);
    let popped = drain_all(&mut q);
    assert_eq!(popped, ids);
    assert_eq!(next_task(&mut q), None);
}

#[test]
fn next_task_pops_oldest_first_then_signals_empty() {
    let mut q = seeded_queue(&vec![7, 8]);
    assert_eq!(next_task(&mut q), Some(7));
    assert_eq!(next_task(&mut q), Some(8));
    assert_eq!(next_task(&mut q), None);
    assert_eq!(next_task(&mut q), None);
}

#[test]
fn pool_model_assigns_each_id_to_exactly_one_worker() {
    let ids: Vec<u32> = (0..10).collect();
    let mut q = seeded_queue(&ids);
    // An arbitrary interleaving of 5 workers.
    let schedule: Vec<usize> = vec![3, 0, 0, 4, 2, 1, 1, 3, 2, 0];
    let assignment = run_pool_model(&mut q, &schedule, 5);
    let popped: Vec<u32> = assignment.iter().map(|p| p.1).collect();
    assert_eq!(popped, ids);
    assert!(assignment.iter().all(|p| p.0 < 5));
    assert_eq!(next_task(&mut q), None);
}

#[test]
fn two_workers_split_a_two_id_queue() {
    let mut q = seeded_queue(&vec![7, 8]);
    let schedule: Vec<usize> = vec![0, 1];
    let assignment = run_pool_model(&mut q, &schedule, 2);
    // No id is popped twice and the queue reports empty afterward.
    assert_eq!(assignment.len(), 2);
    let mut popped: Vec<u32> = assignment.iter().map(|p| p.1).collect();
    popped.sort();
    assert_eq!(popped, vec![7, 8]);
    assert_ne!(assignment[0].1, assignment[1].1);
    assert_eq!(next_task(&mut q), None);
}

#[test]
fn empty_queue_yields_empty_assignment() {
    let mut q = seeded_queue(&Vec::new());
    let assignment = run_pool_model(&mut q, &Vec::new(), 3);
    assert!(assignment.is_empty());
}
