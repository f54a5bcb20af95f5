//! The SNP CPUID page, the `pvalidate` decoding, the GHCB termination word,
//! and the SEV Keep builder.

use keepldr::cpuid_page::{CpuidFunctionEntry, CpuidPage, Error, COUNT_MAX};
use keepldr::kvm::MappedPages;
use keepldr::sev_build::{
    block_offsets, classify, gosvw, should_retry_cpuid_update, MapPlan, PageKind, SnpBuilder,
    PF_CPUID, PF_SALLYPORT, PF_SECRETS,
};
use keepldr::snp;
use keepldr::snp::{ghcb_terminate_eax, pvalidate_result};

fn entry(leaf: u32, subleaf: u32) -> CpuidFunctionEntry {
    CpuidFunctionEntry { eax_in: leaf, ecx_in: subleaf, ..CpuidFunctionEntry::default() }
}

#[test]
fn cpuid_page_collects_entries() {
    let mut page = CpuidPage::new();
    assert_eq!(page.get_functions().len(), 0);
    page.add_entry(&entry(0, 0)).unwrap();
    page.add_entry(&entry(1, 0)).unwrap();
    let functions = page.get_functions();
    assert_eq!(functions.len(), 2);
    assert_eq!(functions[0].eax_in, 0);
    assert_eq!(functions[1].eax_in, 1);
}

#[test]
fn cpuid_page_fills_up() {
    let mut page = CpuidPage::default();
    for i in 0..COUNT_MAX {
        page.add_entry(&entry(i as u32, 0)).unwrap();
    }
    assert_eq!(page.get_functions().len(), COUNT_MAX);
    assert_eq!(page.add_entry(&entry(64, 0)), Err(Error::Full));
    assert_eq!(page.get_functions().len(), COUNT_MAX);
}

#[test]
fn cpuid_page_leaves_the_rest_of_the_page() {
    assert_eq!(CpuidPage::space_size(), 1008);
}

#[test]
fn pvalidate_outcomes_decode() {
    assert_eq!(pvalidate_result(0, 0), Ok(true));
    assert_eq!(pvalidate_result(0, 1), Ok(false));
    assert_eq!(pvalidate_result(1, 0), Err(snp::Error::FailInput));
    assert_eq!(pvalidate_result(6, 0), Err(snp::Error::FailSizeMismatch));
    assert_eq!(pvalidate_result(2, 0), Err(snp::Error::Unknown(2)));
}

#[test]
fn ghcb_termination_word_encodes_the_reason() {
    // Bits 0-11 request termination (0x100), bits 12-15 carry protocol 1,
    // bits 16-23 the reason code.
    assert_eq!(ghcb_terminate_eax(0), 0x0000_1100);
    assert_eq!(ghcb_terminate_eax(7), 0x0007_1100);
    assert_eq!(ghcb_terminate_eax(0xff), 0x00ff_1100);
    assert_eq!(snp::SEV_GHCB_MSR, 0xc001_0130);
}

#[test]
fn segments_classify_by_their_flags() {
    assert_eq!(classify(PF_CPUID), PageKind::Cpuid);
    assert_eq!(classify(PF_SECRETS), PageKind::Secrets);
    assert_eq!(classify(PF_SALLYPORT), PageKind::Normal);
    assert_eq!(classify(0), PageKind::Normal);
    assert_eq!(classify(PF_CPUID | PF_SECRETS), PageKind::Cpuid);
}

#[test]
fn sallyport_segments_contribute_their_blocks() {
    let mut b = SnpBuilder::new();
    let plan = b.map(MappedPages { addr: 0x7f00_0000, len: 0x2000 }, 0x1000, PF_SALLYPORT);
    assert_eq!(plan, MapPlan::Update(PageKind::Normal));
    assert_eq!(b.sallyports, vec![0x7f00_0000, 0x7f00_1000]);
    assert_eq!(b.regions.len(), 1);
    assert_eq!(b.regions[0].slot, 0);
    assert_eq!(b.regions[0].guest_phys_addr, 0x1000);
    // A trailing partial block does not count.
    let mut c = SnpBuilder::new();
    c.map(MappedPages { addr: 0x100_0000, len: 0x1800 }, 0, PF_SALLYPORT);
    assert_eq!(c.sallyports, vec![0x100_0000]);
}

#[test]
fn empty_segments_are_skipped() {
    let mut b = SnpBuilder::new();
    let plan = b.map(MappedPages { addr: 0x7f00_0000, len: 0 }, 0x1000, 0);
    assert_eq!(plan, MapPlan::Empty);
    assert_eq!(b.regions.len(), 0);
}

#[test]
fn a_keep_without_sallyports_cannot_finish() {
    let mut b = SnpBuilder::new();
    b.map(MappedPages { addr: 0x7f00_0000, len: 0x1000 }, 0, 0);
    assert!(b.finish_check().is_err());
    b.map(MappedPages { addr: 0x7f10_0000, len: 0x1000 }, 0x1000, PF_SALLYPORT);
    assert_eq!(b.finish_check(), Ok(0x7f10_0000));
}

#[test]
fn cpuid_update_is_retried_once() {
    assert!(should_retry_cpuid_update(0));
    assert!(should_retry_cpuid_update(1));
    assert!(!should_retry_cpuid_update(2));
}

#[test]
fn block_offsets_step_by_block_size() {
    assert_eq!(block_offsets(0), Vec::<usize>::new());
    assert_eq!(block_offsets(4095), Vec::<usize>::new());
    assert_eq!(block_offsets(4096), vec![0]);
    assert_eq!(block_offsets(0x3000), vec![0, 0x1000, 0x2000]);
}

#[test]
fn launch_workarounds_count_up() {
    assert_eq!(gosvw(), vec![1, 2, 3, 4, 5, 6, 7, 8, 9, 10, 11, 12, 13, 14, 15, 16]);
}
