use aios_surreal::material::{material_jobs, save_jobs_for_site, site_matches_discipline, MaterialList};

#[test]
fn process_discipline_has_three_lists_that_do_not_abort() {
    let jobs = material_jobs("T");
    let seen: Vec<(MaterialList, &str, bool)> =
        jobs.iter().map(|j| (j.list, j.table, j.abort_on_error)).collect();
    assert_eq!(
        seen,
        vec![
            (MaterialList::GyDzcl, "material_gy_list", false),
            (MaterialList::GyEqui, "material_gy_equi", false),
            (MaterialList::GyValv, "material_gy_valv", false),
        ]
    );
}

#[test]
fn other_disciplines_have_their_tables() {
    assert_eq!(material_jobs("I").len(), 3);
    assert_eq!(material_jobs("I")[1].table, "material_inst_pipe");
    assert_eq!(material_jobs("E")[0].list, MaterialList::DqBran);
    assert_eq!(material_jobs("TX")[0].table, "material_tx_list");
    assert_eq!(material_jobs("W")[0].list, MaterialList::GpsDzcl);
    assert_eq!(material_jobs("SB")[0].table, "material_sb_list");
    assert_eq!(material_jobs("N")[0].list, MaterialList::NtValv);
    assert!(material_jobs("X").is_empty());
    assert!(material_jobs("").is_empty());
}

#[test]
fn every_discipline_site_is_saved() {
    let jobs = save_jobs_for_site("V");
    assert_eq!(jobs.len(), 1);
    assert_eq!(jobs[0].list, MaterialList::TfHvac);
    assert_eq!(jobs[0].table, "material_hvac_pipe");
    assert!(jobs[0].abort_on_error);
    let process = save_jobs_for_site("T");
    assert_eq!(process.len(), 3);
    assert_eq!(process[0].table, "material_gy_list");
    assert!(!process[0].abort_on_error);
    assert_eq!(save_jobs_for_site("I").len(), 3);
    assert_eq!(save_jobs_for_site("E")[0].table, "material_elec_list");
    assert!(save_jobs_for_site("X").is_empty());
}

#[test]
fn sites_are_filtered_by_marker() {
    assert!(site_matches_discipline("SITE", "/SITE-PIPE-01", "PIPE"));
    assert!(!site_matches_discipline("SITE", "/SITE-ELEC-01", "PIPE"));
    assert!(site_matches_discipline("ZONE", "/ZONE-ELEC", "PIPE"));
}
