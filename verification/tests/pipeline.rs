use seal_pipeline::error::SealError;
use seal_pipeline::labels::{Labels, RawLabels};
use seal_pipeline::registry::{RegisteredSealProof, SectorShape, Version};
use seal_pipeline::request::{
    AddPieceRequest, CacheRemoval, PieceCommitmentRequest, RawCommitPhase1Output,
    RawPreCommitOutput, RawPreCommitPhase1Output,
};
use seal_pipeline::seal::{
    add_piece, add_piece_inner, backend_result, clear_cache, clear_cache_inner,
    generate_piece_commitment, generate_piece_commitment_inner, get_unsealed_range,
    get_unsealed_range_inner, seal_commit_phase1, seal_commit_phase1_inner, seal_commit_phase2,
    seal_commit_phase2_inner, seal_pre_commit_phase1, seal_pre_commit_phase1_inner,
    seal_pre_commit_phase2, seal_pre_commit_phase2_inner, validate_cache_for_commit,
    validate_cache_for_precommit_phase2, verify_batch_seal, verify_batch_seal_inner, verify_seal,
    verify_seal_inner, write_and_preprocess, SealCommitPhase1Output, SealCommitPhase2Output,
    SealPreCommitPhase1Output, SealPreCommitPhase2Output, OUTCOMES_DO_NOT_MATCH,
};
use seal_pipeline::types::{PieceInfo, StoreConfig, UnpaddedByteIndex, UnpaddedBytesAmount};
use seal_pipeline::vanilla::VanillaSealProof;

fn proof_2k() -> RegisteredSealProof {
    RegisteredSealProof::stacked_drg_2kib_v1()
}

fn without_size() -> RegisteredSealProof {
    RegisteredSealProof { version: Version::V1, sector_size: 4096 }
}

fn without_version() -> RegisteredSealProof {
    RegisteredSealProof { version: Version::Unknown(2), sector_size: 2048 }
}

fn size_refused<T>() -> Result<T, SealError> {
    Err(SealError::UnsupportedSectorSize { sector_size: 4096 })
}

fn version_refused<T>() -> Result<T, SealError> {
    Err(SealError::UnsupportedVersion { version: Version::Unknown(2) })
}

fn store(id: &str) -> StoreConfig {
    StoreConfig {
        path: String::from("/cache"),
        id: String::from(id),
        size: Some(127),
        rows_to_discard: 0,
    }
}

fn raw_labels() -> RawLabels {
    RawLabels { labels: vec![store("layer-1"), store("layer-2")] }
}

fn pieces() -> Vec<PieceInfo> {
    vec![
        PieceInfo { commitment: [3; 32], size: UnpaddedBytesAmount(1016) },
        PieceInfo { commitment: [4; 32], size: UnpaddedBytesAmount(1016) },
    ]
}

fn phase1_output(proof: RegisteredSealProof, labels: Labels) -> SealPreCommitPhase1Output {
    SealPreCommitPhase1Output {
        registered_proof: proof,
        labels,
        config: store("tree-d"),
        comm_d: [5; 32],
    }
}

fn raw_commit_phase1() -> RawCommitPhase1Output {
    RawCommitPhase1Output {
        vanilla_proofs: vec![vec![vec![1, 2], vec![3]], vec![vec![4]]],
        comm_r: [6; 32],
        comm_d: [5; 32],
        replica_id: [7; 32],
        seed: [2; 32],
        ticket: [1; 32],
    }
}

fn commit_phase1_output(proof: RegisteredSealProof) -> SealCommitPhase1Output {
    SealCommitPhase1Output {
        registered_proof: proof,
        vanilla_proofs: vec![
            vec![
                VanillaSealProof::StackedDrg2KiBV1(vec![1, 2]),
                VanillaSealProof::StackedDrg2KiBV1(vec![3]),
            ],
            vec![VanillaSealProof::StackedDrg2KiBV1(vec![4])],
        ],
        comm_r: [6; 32],
        comm_d: [5; 32],
        replica_id: [7; 32],
        seed: [2; 32],
        ticket: [1; 32],
    }
}

#[test]
fn backend_errors_carry_the_shape() {
    assert_eq!(backend_result(SectorShape::Shape8MiB, Ok::<u32, String>(5)), Ok(5));
    assert_eq!(
        backend_result::<u32>(SectorShape::Shape8MiB, Err(String::from("disk full"))),
        Err(SealError::BackendFailure {
            shape: SectorShape::Shape8MiB,
            message: String::from("disk full")
        })
    );
}

#[test]
fn clear_cache_is_dispatched_by_sector_size() {
    let request = clear_cache(2048, "/cache/s-1").unwrap();
    assert_eq!(request.shape, SectorShape::Shape2KiB);
    assert_eq!(request.cache_path, "/cache/s-1");
    assert_eq!(clear_cache(1 << 35, "").unwrap().shape, SectorShape::Shape32GiB);
    assert_eq!(
        clear_cache(2047, "/cache/s-1"),
        Err(SealError::UnsupportedSectorSize { sector_size: 2047 })
    );
}

#[test]
fn clearing_a_clear_cache_is_no_error() {
    let first = clear_cache(2048, "/cache/s-1").unwrap();
    assert_eq!(clear_cache_inner(first, CacheRemoval::Removed), Ok(()));
    let second = clear_cache(2048, "/cache/s-1").unwrap();
    assert_eq!(clear_cache_inner(second, CacheRemoval::AlreadyAbsent), Ok(()));
    let third = clear_cache(8_388_608, "/cache/s-1").unwrap();
    assert_eq!(
        clear_cache_inner(third, CacheRemoval::Failed(String::from("permission denied"))),
        Err(SealError::BackendFailure {
            shape: SectorShape::Shape8MiB,
            message: String::from("permission denied")
        })
    );
}

#[test]
fn pre_commit_phase1_describes_the_backend_call() {
    let request = seal_pre_commit_phase1(
        proof_2k(),
        "/cache",
        "/staged",
        "/sealed",
        [9; 32],
        42,
        [1; 32],
        &pieces(),
    )
    .unwrap();
    assert_eq!(request.registered_proof, proof_2k());
    assert_eq!(request.shape, SectorShape::Shape2KiB);
    assert_eq!(request.cache_path, "/cache");
    assert_eq!(request.in_path, "/staged");
    assert_eq!(request.out_path, "/sealed");
    assert_eq!(request.prover_id, [9; 32]);
    assert_eq!(request.sector_id, 42);
    assert_eq!(request.ticket, [1; 32]);
    assert_eq!(request.piece_infos, pieces());
}

#[test]
fn pre_commit_phase1_refuses_what_is_not_registered() {
    let run = |proof| seal_pre_commit_phase1(proof, "c", "i", "o", [0; 32], 1, [1; 32], &pieces());
    assert_eq!(run(without_size()), size_refused());
    assert_eq!(run(without_version()), version_refused());
}

#[test]
fn pre_commit_phase1_wraps_the_labels() {
    let request =
        seal_pre_commit_phase1(proof_2k(), "c", "i", "o", [0; 32], 1, [1; 32], &pieces()).unwrap();
    let raw = RawPreCommitPhase1Output {
        labels: raw_labels(),
        config: store("tree-d"),
        comm_d: [5; 32],
    };
    assert_eq!(
        seal_pre_commit_phase1_inner(request.clone(), Ok(raw)),
        Ok(phase1_output(proof_2k(), Labels::StackedDrg2KiBV1(raw_labels())))
    );
    assert_eq!(
        seal_pre_commit_phase1_inner(request, Err(String::from("in_path must be a file"))),
        Err(SealError::BackendFailure {
            shape: SectorShape::Shape2KiB,
            message: String::from("in_path must be a file")
        })
    );
}

#[test]
fn pre_commit_phase2_opens_the_labels() {
    let output = phase1_output(proof_2k(), Labels::StackedDrg2KiBV1(raw_labels()));
    let request = seal_pre_commit_phase2(output, "/cache", "/sealed").unwrap();
    assert_eq!(request.registered_proof, proof_2k());
    assert_eq!(request.shape, SectorShape::Shape2KiB);
    assert_eq!(
        request.phase1_output,
        RawPreCommitPhase1Output {
            labels: raw_labels(),
            config: store("tree-d"),
            comm_d: [5; 32]
        }
    );
    assert_eq!(request.cache_path, "/cache");
    assert_eq!(request.out_path, "/sealed");
}

#[test]
fn pre_commit_phase2_refuses_labels_of_another_shape() {
    let output = phase1_output(proof_2k(), Labels::StackedDrg32GiBV1(raw_labels()));
    assert_eq!(
        seal_pre_commit_phase2(output, "/cache", "/sealed"),
        Err(SealError::LabelConversionMismatch {
            expected: SectorShape::Shape2KiB,
            found: SectorShape::Shape32GiB
        })
    );
}

#[test]
fn pre_commit_phase2_refuses_what_is_not_registered() {
    let labels = Labels::StackedDrg2KiBV1(raw_labels());
    assert_eq!(
        seal_pre_commit_phase2(phase1_output(without_size(), labels.clone()), "c", "o"),
        size_refused()
    );
    assert_eq!(
        seal_pre_commit_phase2(phase1_output(without_version(), labels), "c", "o"),
        version_refused()
    );
}

#[test]
fn pre_commit_phase2_ends_at_a_failed_cache_check() {
    let output = phase1_output(proof_2k(), Labels::StackedDrg2KiBV1(raw_labels()));
    let request = seal_pre_commit_phase2(output, "/cache", "/sealed").unwrap();
    assert_eq!(
        validate_cache_for_precommit_phase2(request, Err(String::from("Missing replica"))),
        Err(SealError::CacheValidationFailed { message: String::from("Missing replica") })
    );
}

#[test]
fn pre_commit_phase2_records_the_commitments() {
    let output = phase1_output(proof_2k(), Labels::StackedDrg2KiBV1(raw_labels()));
    let request = seal_pre_commit_phase2(output, "/cache", "/sealed").unwrap();
    let checked = validate_cache_for_precommit_phase2(request.clone(), Ok(())).unwrap();
    assert_eq!(checked.request(), &request);
    assert_eq!(checked.clone().into_request(), request);
    let raw = RawPreCommitOutput { comm_r: [6; 32], comm_d: [5; 32] };
    assert_eq!(
        seal_pre_commit_phase2_inner(checked.clone(), Ok(raw)),
        Ok(SealPreCommitPhase2Output {
            registered_proof: proof_2k(),
            comm_r: [6; 32],
            comm_d: [5; 32]
        })
    );
    assert_eq!(
        seal_pre_commit_phase2_inner(checked, Err(String::from("out of memory"))),
        Err(SealError::BackendFailure {
            shape: SectorShape::Shape2KiB,
            message: String::from("out of memory")
        })
    );
}

#[test]
fn commit_phase1_describes_the_backend_call() {
    let pre_commit = SealPreCommitPhase2Output {
        registered_proof: proof_2k(),
        comm_r: [6; 32],
        comm_d: [5; 32],
    };
    let request = seal_commit_phase1(
        "/cache",
        "/sealed",
        [9; 32],
        42,
        [1; 32],
        [2; 32],
        pre_commit,
        &pieces(),
    )
    .unwrap();
    assert_eq!(request.registered_proof, proof_2k());
    assert_eq!(request.shape, SectorShape::Shape2KiB);
    assert_eq!(request.cache_path, "/cache");
    assert_eq!(request.replica_path, "/sealed");
    assert_eq!(request.prover_id, [9; 32]);
    assert_eq!(request.sector_id, 42);
    assert_eq!(request.ticket, [1; 32]);
    assert_eq!(request.seed, [2; 32]);
    assert_eq!(request.pre_commit, RawPreCommitOutput { comm_r: [6; 32], comm_d: [5; 32] });
    assert_eq!(request.piece_infos, pieces());
}

#[test]
fn commit_phase1_refuses_what_is_not_registered() {
    let run = |proof| {
        let pre_commit = SealPreCommitPhase2Output {
            registered_proof: proof,
            comm_r: [6; 32],
            comm_d: [5; 32],
        };
        seal_commit_phase1("c", "r", [0; 32], 1, [1; 32], [2; 32], pre_commit, &pieces())
    };
    assert_eq!(run(without_size()), size_refused());
    assert_eq!(run(without_version()), version_refused());
}

#[test]
fn commit_phase1_ends_at_a_failed_cache_check() {
    let pre_commit = SealPreCommitPhase2Output {
        registered_proof: proof_2k(),
        comm_r: [6; 32],
        comm_d: [5; 32],
    };
    let request =
        seal_commit_phase1("c", "r", [0; 32], 1, [1; 32], [2; 32], pre_commit, &pieces()).unwrap();
    assert_eq!(
        validate_cache_for_commit(request, Err(String::from("Replica exists, but is empty!"))),
        Err(SealError::CacheValidationFailed {
            message: String::from("Replica exists, but is empty!")
        })
    );
}

#[test]
fn commit_phase1_wraps_the_vanilla_proofs() {
    let pre_commit = SealPreCommitPhase2Output {
        registered_proof: proof_2k(),
        comm_r: [6; 32],
        comm_d: [5; 32],
    };
    let request =
        seal_commit_phase1("c", "r", [0; 32], 1, [1; 32], [2; 32], pre_commit, &pieces()).unwrap();
    let checked = validate_cache_for_commit(request, Ok(())).unwrap();
    assert_eq!(
        seal_commit_phase1_inner(checked.clone(), Ok(raw_commit_phase1())),
        Ok(commit_phase1_output(proof_2k()))
    );
    assert_eq!(
        seal_commit_phase1_inner(checked, Err(String::from("no t_aux"))),
        Err(SealError::BackendFailure {
            shape: SectorShape::Shape2KiB,
            message: String::from("no t_aux")
        })
    );
}

#[test]
fn commit_phase2_opens_the_vanilla_proofs() {
    let request = seal_commit_phase2(commit_phase1_output(proof_2k()), [9; 32], 42).unwrap();
    assert_eq!(request.registered_proof, proof_2k());
    assert_eq!(request.shape, SectorShape::Shape2KiB);
    assert_eq!(request.phase1_output, raw_commit_phase1());
    assert_eq!(request.prover_id, [9; 32]);
    assert_eq!(request.sector_id, 42);
    assert_eq!(
        seal_commit_phase2_inner(request.clone(), Ok(vec![1, 2, 3])),
        Ok(SealCommitPhase2Output { proof: vec![1, 2, 3] })
    );
    assert_eq!(
        seal_commit_phase2_inner(request, Err(String::from("no parameters"))),
        Err(SealError::BackendFailure {
            shape: SectorShape::Shape2KiB,
            message: String::from("no parameters")
        })
    );
}

#[test]
fn commit_phase2_reads_the_proof_type_first() {
    let mut foreign = commit_phase1_output(proof_2k());
    foreign.vanilla_proofs[1][0] = VanillaSealProof::StackedDrg8MiBV1(vec![4]);
    assert_eq!(
        seal_commit_phase2(foreign.clone(), [9; 32], 42),
        Err(SealError::LabelConversionMismatch {
            expected: SectorShape::Shape2KiB,
            found: SectorShape::Shape8MiB
        })
    );
    foreign.registered_proof = without_size();
    assert_eq!(seal_commit_phase2(foreign.clone(), [9; 32], 42), size_refused());
    foreign.registered_proof = without_version();
    assert_eq!(seal_commit_phase2(foreign, [9; 32], 42), version_refused());
    let other = commit_phase1_output(RegisteredSealProof::stacked_drg_8mib_v1());
    assert_eq!(
        seal_commit_phase2(other, [9; 32], 42),
        Err(SealError::LabelConversionMismatch {
            expected: SectorShape::Shape8MiB,
            found: SectorShape::Shape2KiB
        })
    );
}

#[test]
fn verify_seal_describes_the_backend_call() {
    let request =
        verify_seal(proof_2k(), [6; 32], [5; 32], [9; 32], 42, [1; 32], [2; 32], &[1, 2, 3])
            .unwrap();
    assert_eq!(request.registered_proof, proof_2k());
    assert_eq!(request.shape, SectorShape::Shape2KiB);
    assert_eq!(request.comm_r, [6; 32]);
    assert_eq!(request.comm_d, [5; 32]);
    assert_eq!(request.prover_id, [9; 32]);
    assert_eq!(request.sector_id, 42);
    assert_eq!(request.ticket, [1; 32]);
    assert_eq!(request.seed, [2; 32]);
    assert_eq!(request.proof, vec![1, 2, 3]);
    assert_eq!(verify_seal_inner(request.clone(), Ok(true)), Ok(true));
    assert_eq!(verify_seal_inner(request.clone(), Ok(false)), Ok(false));
    assert_eq!(
        verify_seal_inner(request, Err(String::from("no verifying key"))),
        Err(SealError::BackendFailure {
            shape: SectorShape::Shape2KiB,
            message: String::from("no verifying key")
        })
    );
}

#[test]
fn verify_seal_refuses_what_is_not_registered() {
    let run = |proof| verify_seal(proof, [6; 32], [5; 32], [9; 32], 42, [1; 32], [2; 32], &[1]);
    assert_eq!(run(without_size()), size_refused());
    assert_eq!(run(without_version()), version_refused());
}

#[test]
fn verify_batch_seal_holds_one_entry_per_sector() {
    let first: &[u8] = &[1, 2];
    let second: &[u8] = &[];
    let request = verify_batch_seal(
        proof_2k(),
        &[[6; 32], [16; 32]],
        &[[5; 32], [15; 32]],
        &[[9; 32], [19; 32]],
        &[42, 43],
        &[[1; 32], [11; 32]],
        &[[2; 32], [12; 32]],
        &[first, second],
    )
    .unwrap();
    assert_eq!(request.registered_proof, proof_2k());
    assert_eq!(request.shape, SectorShape::Shape2KiB);
    assert_eq!(
        request.entries,
        vec![
            verify_seal(proof_2k(), [6; 32], [5; 32], [9; 32], 42, [1; 32], [2; 32], first)
                .unwrap(),
            verify_seal(proof_2k(), [16; 32], [15; 32], [19; 32], 43, [11; 32], [12; 32], second)
                .unwrap(),
        ]
    );
    let empty = verify_batch_seal(proof_2k(), &[], &[], &[], &[], &[], &[], &[]).unwrap();
    assert_eq!(empty.entries, vec![]);
    assert_eq!(verify_batch_seal_inner(empty, vec![]), Ok(true));
}

#[test]
fn verify_batch_seal_refuses_what_is_not_registered() {
    let run = |proof| verify_batch_seal(proof, &[], &[], &[], &[], &[], &[], &[]);
    assert_eq!(run(without_size()), size_refused());
    assert_eq!(run(without_version()), version_refused());
}

#[test]
fn a_batch_holds_if_every_entry_holds() {
    let proof: &[u8] = &[1];
    let batch = || {
        verify_batch_seal(
            RegisteredSealProof::stacked_drg_512mib_v1(),
            &[[6; 32]; 3],
            &[[5; 32]; 3],
            &[[9; 32]; 3],
            &[1, 2, 3],
            &[[1; 32]; 3],
            &[[2; 32]; 3],
            &[proof, proof, proof],
        )
        .unwrap()
    };
    let failure = |text: &str| {
        Err(SealError::BackendFailure {
            shape: SectorShape::Shape512MiB,
            message: String::from(text),
        })
    };
    assert_eq!(verify_batch_seal_inner(batch(), vec![Ok(true), Ok(true), Ok(true)]), Ok(true));
    assert_eq!(verify_batch_seal_inner(batch(), vec![Ok(false), Ok(true), Ok(true)]), Ok(false));
    assert_eq!(verify_batch_seal_inner(batch(), vec![Ok(true), Ok(false), Ok(true)]), Ok(false));
    assert_eq!(verify_batch_seal_inner(batch(), vec![Ok(true), Ok(true), Ok(false)]), Ok(false));
    assert_eq!(verify_batch_seal_inner(batch(), vec![Ok(false), Ok(false), Ok(false)]), Ok(false));
    assert_eq!(
        verify_batch_seal_inner(
            batch(),
            vec![Ok(false), Err(String::from("first")), Err(String::from("second"))]
        ),
        failure("first")
    );
    assert_eq!(
        verify_batch_seal_inner(batch(), vec![Ok(true), Ok(true), Err(String::from("late"))]),
        failure("late")
    );
    assert_eq!(
        verify_batch_seal_inner(batch(), vec![Ok(true), Ok(true)]),
        failure(OUTCOMES_DO_NOT_MATCH)
    );
    assert_eq!(
        verify_batch_seal_inner(batch(), vec![Ok(true), Ok(true), Ok(true), Ok(true)]),
        failure(OUTCOMES_DO_NOT_MATCH)
    );
}

#[test]
fn the_text_of_a_miscounted_batch_is_fixed() {
    assert_eq!(OUTCOMES_DO_NOT_MATCH, "the outcomes do not match the entries of the batch");
}

#[test]
fn unsealing_describes_the_backend_call() {
    let request = get_unsealed_range(
        proof_2k(),
        "/cache",
        "/sealed",
        "/out",
        [9; 32],
        42,
        [5; 32],
        [1; 32],
        UnpaddedByteIndex(127),
        UnpaddedBytesAmount(254),
    )
    .unwrap();
    assert_eq!(request.registered_proof, proof_2k());
    assert_eq!(request.shape, SectorShape::Shape2KiB);
    assert_eq!(request.cache_path, "/cache");
    assert_eq!(request.sealed_path, "/sealed");
    assert_eq!(request.output_path, "/out");
    assert_eq!(request.prover_id, [9; 32]);
    assert_eq!(request.sector_id, 42);
    assert_eq!(request.comm_d, [5; 32]);
    assert_eq!(request.ticket, [1; 32]);
    assert_eq!(request.offset, UnpaddedByteIndex(127));
    assert_eq!(request.num_bytes, UnpaddedBytesAmount(254));
    assert_eq!(
        get_unsealed_range_inner(request.clone(), Ok(UnpaddedBytesAmount(254))),
        Ok(UnpaddedBytesAmount(254))
    );
    assert_eq!(
        get_unsealed_range_inner(request, Err(String::from("no replica"))),
        Err(SealError::BackendFailure {
            shape: SectorShape::Shape2KiB,
            message: String::from("no replica")
        })
    );
}

#[test]
fn unsealing_refuses_what_is_not_registered() {
    let run = |proof| {
        get_unsealed_range(
            proof,
            "c",
            "s",
            "o",
            [9; 32],
            42,
            [5; 32],
            [1; 32],
            UnpaddedByteIndex(0),
            UnpaddedBytesAmount(127),
        )
    };
    assert_eq!(run(without_size()), size_refused());
    assert_eq!(run(without_version()), version_refused());
}

#[test]
fn piece_operations_are_dispatched() {
    let size = UnpaddedBytesAmount(508);
    let lengths = [UnpaddedBytesAmount(127), UnpaddedBytesAmount(254)];
    assert_eq!(
        generate_piece_commitment(proof_2k(), size),
        Ok(PieceCommitmentRequest {
            registered_proof: proof_2k(),
            shape: SectorShape::Shape2KiB,
            piece_size: size
        })
    );
    assert_eq!(
        add_piece(proof_2k(), size, &lengths),
        Ok(AddPieceRequest {
            registered_proof: proof_2k(),
            shape: SectorShape::Shape2KiB,
            piece_size: size,
            piece_lengths: lengths.to_vec(),
        })
    );
    assert_eq!(write_and_preprocess(proof_2k(), size), add_piece(proof_2k(), size, &[]));
    assert_eq!(write_and_preprocess(proof_2k(), size).unwrap().piece_lengths, vec![]);
}

#[test]
fn piece_operations_refuse_what_is_not_registered() {
    let size = UnpaddedBytesAmount(508);
    assert_eq!(generate_piece_commitment(without_size(), size), size_refused());
    assert_eq!(generate_piece_commitment(without_version(), size), version_refused());
    assert_eq!(add_piece(without_size(), size, &[]), size_refused());
    assert_eq!(add_piece(without_version(), size, &[]), version_refused());
    assert_eq!(write_and_preprocess(without_size(), size), size_refused());
    assert_eq!(write_and_preprocess(without_version(), size), version_refused());
}

#[test]
fn piece_operations_hand_on_what_the_backend_returned() {
    let size = UnpaddedBytesAmount(508);
    let piece = PieceInfo { commitment: [8; 32], size };
    let commitment = generate_piece_commitment(proof_2k(), size).unwrap();
    assert_eq!(generate_piece_commitment_inner(commitment, Ok(piece)), Ok(piece));
    assert_eq!(
        generate_piece_commitment_inner(commitment, Err(String::from("piece is too small"))),
        Err(SealError::BackendFailure {
            shape: SectorShape::Shape2KiB,
            message: String::from("piece is too small")
        })
    );
    let adding = add_piece(proof_2k(), size, &[UnpaddedBytesAmount(127)]).unwrap();
    assert_eq!(
        add_piece_inner(adding.clone(), Ok((piece, UnpaddedBytesAmount(889)))),
        Ok((piece, UnpaddedBytesAmount(889)))
    );
    assert_eq!(
        add_piece_inner(adding, Err(String::from("read 0 bytes"))),
        Err(SealError::BackendFailure {
            shape: SectorShape::Shape2KiB,
            message: String::from("read 0 bytes")
        })
    );
}
