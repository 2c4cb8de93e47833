use asic_rs::device::{DeviceInfo, HashAlgorithm, MinerFirmware};
use asic_rs::errors::ModelSelectionError;
use asic_rs::firmware::{
    header_or_empty, identify_from_rpc, identify_from_web, Bitaxe, BitaxeBackend, BitaxeFirmware,
    Braiins, BraiinsBackend, DiscoveryCommand, FirmwareVersion, FirmwareKind, MarathonFirmware, WebResponse,
};
use asic_rs::hardware::MinerHardware;
use asic_rs::models::BitaxeModel;

fn web(body: &str, algo: &str, status: u16) -> WebResponse {
    WebResponse {
        body: body.to_string(),
        auth_header: String::new(),
        algo_header: algo.to_string(),
        redirect_header: String::new(),
        status,
    }
}

#[test]
fn bitaxe_identification() {
    let fw = BitaxeFirmware {};
    assert!(fw.identify_web(&web("<title>AxeOS</title>", "", 200)));
    assert!(!fw.identify_web(&web("<title>axeos</title>", "", 200)));
    assert!(!fw.identify_rpc("anything"));
    assert!(fw.is_stock());
    assert_eq!(fw.name(), "Bitaxe Stock");
    assert_eq!(fw.get_discovery_commands(), vec![DiscoveryCommand::HttpWebRoot]);
}

#[test]
fn marathon_identification() {
    let fw = MarathonFirmware {};
    assert!(fw.identify_rpc("{\"VERSION\":[{\"MARAFW\":\"1.0\"}]}"));
    assert!(fw.identify_rpc("KAONSU"));
    assert!(!fw.identify_rpc("marafw"));
    assert!(fw.identify_web(&web("", "MD5", 401)));
    assert!(!fw.identify_web(&web("", "MD5", 200)));
    assert!(!fw.identify_web(&web("", "SHA-256", 401)));
    assert!(!fw.is_stock());
    assert_eq!(fw.name(), "Marathon");
    assert_eq!(fw.get_discovery_commands(), vec![DiscoveryCommand::RpcVersion]);
}

#[test]
fn registry_search() {
    let registry = vec![FirmwareKind::Bitaxe, FirmwareKind::Marathon];
    assert_eq!(identify_from_rpc(&registry, "{\"Type\":\"marafw\"}"), Some(1));
    assert_eq!(identify_from_rpc(&registry, "{\"Type\":\"cgminer\"}"), None);
    assert_eq!(identify_from_web(&registry, &web("AxeOS", "", 200)), Some(0));
    assert_eq!(identify_from_web(&registry, &web("", "MD5", 401)), Some(1));
    assert_eq!(identify_from_web(&registry, &web("nope", "", 404)), None);
    let twice = vec![FirmwareKind::Marathon, FirmwareKind::Marathon];
    assert_eq!(identify_from_rpc(&twice, "kaonsu"), Some(0));
}

#[test]
fn header_defaults() {
    assert_eq!(header_or_empty(None), "");
    assert_eq!(header_or_empty(Some("Digest".to_string())), "Digest");
}

#[test]
fn bitaxe_model_from_system_info() {
    assert_eq!(
        BitaxeFirmware::model_from_system_info(r#"{"ASICModel":"bm1370"}"#).unwrap(),
        BitaxeModel::Gamma
    );
    assert_eq!(
        BitaxeFirmware::model_from_system_info(r#"{"ASICModel":"bm9"}"#).unwrap(),
        BitaxeModel::Unknown("BM9".to_string())
    );
    assert!(matches!(
        BitaxeFirmware::model_from_system_info(r#"{"ASICModel":7}"#),
        Err(ModelSelectionError::UnexpectedModelResponse)
    ));
    assert!(matches!(
        BitaxeFirmware::model_from_system_info("<html>"),
        Err(ModelSelectionError::UnexpectedModelResponse)
    ));
}

#[test]
fn backends() {
    let v = |s: &str| {
        let parsed = semver::Version::parse(s).unwrap();
        FirmwareVersion {
            major: parsed.major,
            minor: parsed.minor,
            patch: parsed.patch,
            pre: parsed.pre.as_str().to_string(),
        }
    };
    assert_eq!(Bitaxe::select_backend(None), BitaxeBackend::V2_9_0);
    assert_eq!(Bitaxe::select_backend(Some(&v("2.3.1"))), BitaxeBackend::V2_0_0);
    assert_eq!(Bitaxe::select_backend(Some(&v("2.9.0"))), BitaxeBackend::V2_9_0);
    assert_eq!(Bitaxe::select_backend(Some(&v("1.9.0"))), BitaxeBackend::V2_9_0);
    assert_eq!(Braiins::select_backend(None), BraiinsBackend::V21_09);
    assert_eq!(Braiins::select_backend(Some(&v("25.7.0"))), BraiinsBackend::V25_07);
    assert_eq!(Braiins::select_backend(Some(&v("23.12.1"))), BraiinsBackend::V21_09);
    assert_eq!(Bitaxe::select_backend(Some(&v("2.5.0-beta.1"))), BitaxeBackend::V2_9_0);
    assert_eq!(Braiins::select_backend(Some(&v("26.0.0-rc1"))), BraiinsBackend::V21_09);
    let bad_pre = FirmwareVersion { major: 2, minor: 1, patch: 0, pre: "bad pre!".to_string() };
    assert_eq!(Bitaxe::select_backend(Some(&bad_pre)), BitaxeBackend::V2_9_0);
}

#[test]
fn backend_range_edges() {
    let release = |major: u64, minor: u64, patch: u64| FirmwareVersion {
        major,
        minor,
        patch,
        pre: String::new(),
    };
    assert_eq!(Bitaxe::select_backend(Some(&release(2, 0, 0))), BitaxeBackend::V2_0_0);
    assert_eq!(Bitaxe::select_backend(Some(&release(2, 8, 99))), BitaxeBackend::V2_0_0);
    assert_eq!(Bitaxe::select_backend(Some(&release(1, 99, 99))), BitaxeBackend::V2_9_0);
    assert_eq!(Bitaxe::select_backend(Some(&release(3, 0, 0))), BitaxeBackend::V2_9_0);
    assert_eq!(Braiins::select_backend(Some(&release(25, 6, 9))), BraiinsBackend::V21_09);
    assert_eq!(Braiins::select_backend(Some(&release(25, 7, 1))), BraiinsBackend::V25_07);
    assert_eq!(Braiins::select_backend(Some(&release(26, 0, 0))), BraiinsBackend::V25_07);
}

#[test]
fn device_info() {
    let info = DeviceInfo::new(BitaxeModel::Supra, BitaxeFirmware {}, HashAlgorithm::SHA256);
    assert_eq!(info.make, "Bitaxe");
    assert_eq!(info.model, "Supra");
    assert_eq!(info.firmware, "Bitaxe Stock");
    assert_eq!(info.algo, HashAlgorithm::SHA256);
    assert_eq!(info.hardware, MinerHardware { chips: Some(1), fans: Some(1), boards: Some(1) });
    assert_eq!(HashAlgorithm::Blake2S256.to_string(), "Blake2S256");
}
