use vstd::prelude::*;

verus! {

/// Device metadata as reported by the signing device.
#[derive(Debug, PartialEq, Eq)]
pub struct DeviceInfo {
    pub se_version: String,
    pub mcu_version: String,
}

/// Metadata of the app open on the signing device.
#[derive(Debug, PartialEq, Eq)]
pub struct AppInfo {
    pub app_name: String,
    pub app_version: String,
}

/// A request to send over the device transport.
#[derive(Clone, Copy, Debug, PartialEq, Eq, Structural)]
pub enum Request {
    DeviceInfo,
    AppInfo,
}

/// What came back from the transport.
#[derive(Debug, PartialEq, Eq)]
pub enum ProbeEvent {
    TransportOpened,
    TransportFailed(String),
    DeviceInfoReceived(DeviceInfo),
    DeviceInfoFailed(String),
    AppInfoReceived(AppInfo),
    AppInfoFailed(String),
}

/// Where a probe stands.
#[derive(Clone, Copy, Debug, PartialEq, Eq, Structural)]
pub enum Stage {
    Opening,
    AwaitingDeviceInfo,
    AwaitingAppInfo,
    Finished,
}

/// What the driver of a probe does after an event: first write `error`, if
/// any, to standard error, then print each line of `output` to standard
/// output, then send `request`, if any, and hand its result back.
#[derive(Debug)]
pub struct ProbeStep {
    pub error: Option<String>,
    pub request: Option<Request>,
    pub output: Vec<String>,
}

/// The views of a sequence of strings.
pub open spec fn lines_view(v: Seq<String>) -> Seq<Seq<char>> {
    v.map_values(|s: String| s@)
}

/// The report section printed for a device.
pub open spec fn device_section(d: DeviceInfo) -> Seq<Seq<char>> {
    seq![
        Seq::<char>::empty(),
        "///////////////// Device Info /////////////////////////"@,
        "se_version: "@ + d.se_version@,
        "mcu_version: "@ + d.mcu_version@,
    ]
}

/// The report section printed for an app.
pub open spec fn app_section(a: AppInfo) -> Seq<Seq<char>> {
    seq![
        Seq::<char>::empty(),
        "///////////////// App Info /////////////////////////"@,
        "app_name: "@ + a.app_name@,
        "app_version: "@ + a.app_version@,
    ]
}

/// The report of a finished probe: the section of each answer that came back,
/// the device's before the app's.
pub open spec fn report(device: Option<DeviceInfo>, app: Option<AppInfo>) -> Seq<Seq<char>> {
    (match device {
        Some(d) => device_section(d),
        None => Seq::empty(),
    }) + (match app {
        Some(a) => app_section(a),
        None => Seq::empty(),
    })
}

/// Appends one line.
fn push_line(lines: &mut Vec<String>, line: String)
    ensures
        lines_view(final(lines)@) == lines_view(old(lines)@).push(line@),
{
    lines.push(line);
    assert(lines_view(lines@) =~= lines_view(old(lines)@).push(line@));
}

/// Builds the report lines for the answers that came back.
pub fn report_lines(device: &Option<DeviceInfo>, app: &Option<AppInfo>) -> (r: Vec<String>)
    ensures
        lines_view(r@) == report(*device, *app),
{
    let mut lines: Vec<String> = Vec::new();
    assert(lines_view(lines@) =~= Seq::<Seq<char>>::empty());
    if let Some(d) = device {
        push_line(&mut lines, String::new());
        push_line(&mut lines, String::from_str("///////////////// Device Info /////////////////////////"));
        push_line(&mut lines, String::from_str("se_version: ").concat(d.se_version.as_str()));
        push_line(&mut lines, String::from_str("mcu_version: ").concat(d.mcu_version.as_str()));
    }
    if let Some(a) = app {
        push_line(&mut lines, String::new());
        push_line(&mut lines, String::from_str("///////////////// App Info /////////////////////////"));
        push_line(&mut lines, String::from_str("app_name: ").concat(a.app_name.as_str()));
        push_line(&mut lines, String::from_str("app_version: ").concat(a.app_version.as_str()));
    }
    assert(lines_view(lines@) =~= report(*device, *app));
    lines
}

/// The abstract state of a probe.
pub struct ProbeState {
    pub stage: Stage,
    pub device: Option<DeviceInfo>,
    pub app: Option<AppInfo>,
}

/// One probe of a signing device: open the transport, ask for the device's
/// metadata, then for the app's, each on its own, and report what came back.
/// A failed request is reported and does not stop the other.
pub struct DeviceProbe {
    stage: Stage,
    device: Option<DeviceInfo>,
    app: Option<AppInfo>,
}

impl View for DeviceProbe {
    type V = ProbeState;

    closed spec fn view(&self) -> ProbeState {
        ProbeState { stage: self.stage, device: self.device, app: self.app }
    }
}

impl ProbeState {
    /// No answer is held before its request was sent.
    pub open spec fn wf(self) -> bool {
        &&& (self.stage == Stage::Opening || self.stage == Stage::AwaitingDeviceInfo)
            ==> self.device is None
        &&& self.stage != Stage::Finished ==> self.app is None
    }

    /// The state that follows an event.
    pub open spec fn next(self, e: ProbeEvent) -> ProbeState {
        match (self.stage, e) {
            (Stage::Opening, ProbeEvent::TransportOpened) => ProbeState {
                stage: Stage::AwaitingDeviceInfo,
                ..self
            },
            (Stage::Opening, ProbeEvent::TransportFailed(_)) => ProbeState {
                stage: Stage::Finished,
                ..self
            },
            (Stage::AwaitingDeviceInfo, ProbeEvent::DeviceInfoReceived(d)) => ProbeState {
                stage: Stage::AwaitingAppInfo,
                device: Some(d),
                ..self
            },
            (Stage::AwaitingDeviceInfo, ProbeEvent::DeviceInfoFailed(_)) => ProbeState {
                stage: Stage::AwaitingAppInfo,
                ..self
            },
            (Stage::AwaitingAppInfo, ProbeEvent::AppInfoReceived(a)) => ProbeState {
                stage: Stage::Finished,
                app: Some(a),
                ..self
            },
            (Stage::AwaitingAppInfo, ProbeEvent::AppInfoFailed(_)) => ProbeState {
                stage: Stage::Finished,
                ..self
            },
            _ => self,
        }
    }

    /// Whether an event answers what the probe waits for.
    pub open spec fn expects(self, e: ProbeEvent) -> bool {
        match (self.stage, e) {
            (Stage::Opening, ProbeEvent::TransportOpened) => true,
            (Stage::Opening, ProbeEvent::TransportFailed(_)) => true,
            (Stage::AwaitingDeviceInfo, ProbeEvent::DeviceInfoReceived(_)) => true,
            (Stage::AwaitingDeviceInfo, ProbeEvent::DeviceInfoFailed(_)) => true,
            (Stage::AwaitingAppInfo, ProbeEvent::AppInfoReceived(_)) => true,
            (Stage::AwaitingAppInfo, ProbeEvent::AppInfoFailed(_)) => true,
            _ => false,
        }
    }
}

impl ProbeState {
    /// The message reported after an event: that of an expected failure.
    pub open spec fn error_after(self, e: ProbeEvent) -> Option<Seq<char>> {
        if self.expects(e) {
            failure_of(e)
        } else {
            None
        }
    }

    /// The request sent after an expected event.
    pub open spec fn request_after(self, e: ProbeEvent) -> Option<Request> {
        if self.expects(e) {
            request_for(self.next(e).stage)
        } else {
            None
        }
    }

    /// The lines printed after an event: the report, once the app's answer
    /// came back or failed.
    pub open spec fn output_after(self, e: ProbeEvent) -> Seq<Seq<char>> {
        if self.expects(e) && self.stage == Stage::AwaitingAppInfo {
            report(self.next(e).device, self.next(e).app)
        } else {
            Seq::empty()
        }
    }
}

/// The error message an event carries, if it is a failure.
pub open spec fn failure_of(e: ProbeEvent) -> Option<Seq<char>> {
    match e {
        ProbeEvent::TransportFailed(m) => Some(m@),
        ProbeEvent::DeviceInfoFailed(m) => Some(m@),
        ProbeEvent::AppInfoFailed(m) => Some(m@),
        _ => None,
    }
}

/// The view of an optional message.
pub open spec fn message_view(m: Option<String>) -> Option<Seq<char>> {
    match m {
        Some(s) => Some(s@),
        None => None,
    }
}

/// The request to send once a stage is reached.
pub open spec fn request_for(stage: Stage) -> Option<Request> {
    match stage {
        Stage::AwaitingDeviceInfo => Some(Request::DeviceInfo),
        Stage::AwaitingAppInfo => Some(Request::AppInfo),
        _ => None,
    }
}

/// The device's answer that an event carries, if any.
pub open spec fn device_answer(e: ProbeEvent) -> Option<DeviceInfo> {
    match e {
        ProbeEvent::DeviceInfoReceived(d) => Some(d),
        _ => None,
    }
}

/// The app's answer that an event carries, if any.
pub open spec fn app_answer(e: ProbeEvent) -> Option<AppInfo> {
    match e {
        ProbeEvent::AppInfoReceived(a) => Some(a),
        _ => None,
    }
}

/// Once the transport is open, both requests are sent whatever the first
/// one gives, the probe then finishes, and its report holds exactly the
/// answers that came back.
pub proof fn lemma_requests_independent(de: ProbeEvent, ae: ProbeEvent)
    requires
        de is DeviceInfoReceived || de is DeviceInfoFailed,
        ae is AppInfoReceived || ae is AppInfoFailed,
    ensures
        ({
            let s0 = ProbeState { stage: Stage::Opening, device: None, app: None };
            let s1 = s0.next(ProbeEvent::TransportOpened);
            let s2 = s1.next(de);
            &&& s0.request_after(ProbeEvent::TransportOpened) == Some(Request::DeviceInfo)
            &&& s1.request_after(de) == Some(Request::AppInfo)
            &&& s2.request_after(ae) is None
            &&& s2.next(ae).stage == Stage::Finished
            &&& s2.output_after(ae) == report(device_answer(de), app_answer(ae))
        }),
{
}

/// A probe whose transport fails sends no request and prints no report.
pub proof fn lemma_transport_failure_ends(m: String)
    ensures
        ({
            let s0 = ProbeState { stage: Stage::Opening, device: None, app: None };
            let e = ProbeEvent::TransportFailed(m);
            &&& s0.request_after(e) is None
            &&& s0.output_after(e) == Seq::<Seq<char>>::empty()
            &&& s0.error_after(e) == Some(m@)
            &&& s0.next(e).stage == Stage::Finished
        }),
{
}

impl DeviceProbe {
    /// A probe about to open the transport.
    pub fn new() -> (r: DeviceProbe)
        ensures
            r@ == (ProbeState { stage: Stage::Opening, device: None, app: None }),
    {
        DeviceProbe { stage: Stage::Opening, device: None, app: None }
    }

    /// Where the probe stands.
    pub fn stage(&self) -> (r: Stage)
        ensures
            r == self@.stage,
    {
        self.stage
    }

    /// The device's answer, once it came back.
    pub fn device(&self) -> (r: &Option<DeviceInfo>)
        ensures
            *r == self@.device,
    {
        &self.device
    }

    /// The app's answer, once it came back.
    pub fn app(&self) -> (r: &Option<AppInfo>)
        ensures
            *r == self@.app,
    {
        &self.app
    }

    /// Takes in what came back from the transport and says what to do next.
    /// An event that does not answer what the probe waits for changes nothing.
    /// A failure's message is passed on to be reported; the report is printed
    /// when the probe finishes after the transport was opened.
    pub fn step(&mut self, e: ProbeEvent) -> (r: ProbeStep)
        ensures
            final(self)@ == old(self)@.next(e),
            old(self)@.wf() ==> final(self)@.wf(),
            message_view(r.error) == old(self)@.error_after(e),
            r.request == old(self)@.request_after(e),
            lines_view(r.output@) == old(self)@.output_after(e),
    {
        let none: Vec<String> = Vec::new();
        assert(lines_view(none@) =~= Seq::<Seq<char>>::empty());
        match (self.stage, e) {
            (Stage::Opening, ProbeEvent::TransportOpened) => {
                self.stage = Stage::AwaitingDeviceInfo;
                ProbeStep { error: None, request: Some(Request::DeviceInfo), output: none }
            },
            (Stage::Opening, ProbeEvent::TransportFailed(m)) => {
                self.stage = Stage::Finished;
                ProbeStep { error: Some(m), request: None, output: none }
            },
            (Stage::AwaitingDeviceInfo, ProbeEvent::DeviceInfoReceived(d)) => {
                self.stage = Stage::AwaitingAppInfo;
                self.device = Some(d);
                ProbeStep { error: None, request: Some(Request::AppInfo), output: none }
            },
            (Stage::AwaitingDeviceInfo, ProbeEvent::DeviceInfoFailed(m)) => {
                self.stage = Stage::AwaitingAppInfo;
                ProbeStep { error: Some(m), request: Some(Request::AppInfo), output: none }
            },
            (Stage::AwaitingAppInfo, ProbeEvent::AppInfoReceived(a)) => {
                self.stage = Stage::Finished;
                self.app = Some(a);
                let output = report_lines(&self.device, &self.app);
                ProbeStep { error: None, request: None, output }
            },
            (Stage::AwaitingAppInfo, ProbeEvent::AppInfoFailed(m)) => {
                self.stage = Stage::Finished;
                let output = report_lines(&self.device, &self.app);
                ProbeStep { error: Some(m), request: None, output }
            },
            _ => ProbeStep { error: None, request: None, output: none },
        }
    }
}

} // verus!
