use factory_sim::belt::ConveyorBelt;
use factory_sim::factory::{factorySetup, ConfigError, Factory};
use factory_sim::json::{JSONConveyor, JSONData, JSONFactory, JSONFault, JSONMachine};
use factory_sim::machine::{
    InputBehavior, Machine, OPCState, OutputBehavior, ProcessingBehavior,
};
use factory_sim::opc::{serverPoll, serverSetup, teardownIDs};
use factory_sim::registers::{
    ConfigCheck, ControlRegisters, SimulationState, ToggleResponse,
};
use factory_sim::sim::Simulation;
use factory_sim::text::eqIgnoreAsciiCase;

fn machineCfg(id: &str, inputBehavior: &str, outputBehavior: &str) -> JSONMachine {
    JSONMachine {
        id: id.to_string(),
        cost: 1,
        throughput: 1,
        state: "producing".to_string(),
        faults: vec![],
        inputIDs: vec![],
        inputBehavior: inputBehavior.to_string(),
        inputSpeedMs: 0,
        inputCapacity: 5,
        processingBehavior: "default".to_string(),
        processingSpeedMs: 100,
        outputIDs: vec![],
        outputBehavior: outputBehavior.to_string(),
        outputSpeedMs: 0,
        outputCapacity: 5,
        sensor: false,
        sensorBaselineMilli: 0,
        sensorVarianceMilli: 0,
    }
}

fn lineCfg() -> JSONData {
    let mut src = machineCfg("src", "spawner", "default");
    src.outputIDs = vec!["b".to_string()];
    let mut snk = machineCfg("snk", "single", "consumer");
    snk.inputIDs = vec!["b".to_string()];
    JSONData {
        factory: JSONFactory {
            name: "line".to_string(),
            description: "two machines and one belt".to_string(),
            simSpeedMilli: 1000,
            pollRateMs: 100,
            debounceRateInPolls: 2,
            machines: vec![src, snk],
            conveyors: vec![JSONConveyor {
                id: "b".to_string(),
                capacity: 3,
                beltSpeedMs: 50,
                inputID: None,
            }],
        },
    }
}

fn expectErr(cfg: &JSONData, want: ConfigError) {
    match factorySetup(cfg) {
        Ok(_) => panic!("configuration was accepted"),
        Err(e) => assert_eq!(e, want),
    }
}

#[test]
fn belt_push_and_pull() {
    let mut b = ConveyorBelt::new("b".to_string(), 2, 1000, None);
    assert!(!b.isStartSome());
    assert!(!b.isEndSome());
    assert!(b.pushItem());
    assert!(b.isStartSome());
    assert!(!b.pushItem());
    assert!(!b.pullItem());
    b.update(1000);
    assert!(!b.isStartSome());
    assert!(b.isEndSome());
    assert!(b.pullItem());
    assert!(!b.isEndSome());
}

#[test]
fn belt_item_needs_full_threshold() {
    let mut b = ConveyorBelt::new("b".to_string(), 2, 1000, None);
    b.pushItem();
    b.update(999);
    assert!(b.isStartSome());
    assert!(!b.isEndSome());
    b.update(1);
    assert!(!b.isStartSome());
    assert!(b.isEndSome());
}

#[test]
fn belt_take_input_moves_one_item() {
    let mut down = ConveyorBelt::new("down".to_string(), 2, 1000, Some(1));
    let mut up = ConveyorBelt::new("up".to_string(), 2, 1000, None);
    up.pushItem();
    up.update(1000);
    assert!(up.isEndSome());
    assert!(down.takeInput(&mut up));
    assert!(down.isStartSome());
    assert!(!up.isEndSome());
    assert!(!down.takeInput(&mut up));
}

fn bareMachine() -> Machine {
    Machine::new(
        "m".to_string(),
        1,
        1,
        OPCState::PRODUCING,
        vec![],
        0,
        0,
        5,
        0,
        5,
        false,
        0,
        0,
    )
}

#[test]
fn spawner_fills_and_processing_commits() {
    let mut m = bareMachine();
    m.inputBehavior = InputBehavior::SPAWNER;
    m.outputBehavior = OutputBehavior::CONSUMER;
    let mut belts: Vec<ConveyorBelt> = vec![];
    assert!(m.spawnerInput(&mut belts, 0));
    assert_eq!(m.inputInventory, 1);
    assert!(m.defaultProcessing(0));
    assert_eq!(m.inputInventory, 0);
    assert_eq!(m.outputInventory, 1);
    assert_eq!(m.producedCount, 1);
    assert_eq!(m.consumedCount, 1);
    assert!(m.consumerOutput(&mut belts, 0));
    assert_eq!(m.outputInventory, 0);
}

#[test]
fn certain_fault_fires_and_recovers() {
    let mut m = bareMachine();
    m.inputBehavior = InputBehavior::SPAWNER;
    m.outputBehavior = OutputBehavior::CONSUMER;
    m.faults = vec![factory_sim::machine::Fault {
        faultChanceMilli: 1000,
        faultMessage: "F".to_string(),
        faultTimeHighUs: 1000000,
        faultTimeLowUs: 1000000,
    }];
    let mut belts: Vec<ConveyorBelt> = vec![];
    m.spawnerInput(&mut belts, 0);
    let committed = m.defaultProcessing(0);
    assert!(!committed);
    assert_eq!(m.state, OPCState::FAULTED);
    assert_eq!(m.faultedCount, 1);
    assert_eq!(m.stateChangeCount, 1);
    assert!(m.currentFault.is_some());
    assert_eq!(m.faultTimeCurrentUs, 1000000);
    assert_eq!(m.producedCount, 0);
    // exactly one second later the machine recovers
    m.update(&mut belts, 1000000);
    assert_eq!(m.state, OPCState::PRODUCING);
    assert!(m.currentFault.is_none());
    assert_eq!(m.stateChangeCount, 2);
}

#[test]
fn zero_chance_fault_never_fires() {
    let mut m = bareMachine();
    m.inputBehavior = InputBehavior::SPAWNER;
    m.outputBehavior = OutputBehavior::CONSUMER;
    m.faults = vec![factory_sim::machine::Fault {
        faultChanceMilli: 0,
        faultMessage: "never".to_string(),
        faultTimeHighUs: 1000000,
        faultTimeLowUs: 0,
    }];
    let mut belts: Vec<ConveyorBelt> = vec![];
    for _ in 0..20 {
        m.update(&mut belts, 1000);
    }
    assert_eq!(m.state, OPCState::PRODUCING);
    assert_eq!(m.faultedCount, 0);
    assert!(m.producedCount >= 1);
}

#[test]
fn fault_gate_skips_intake_but_drains_output() {
    let mut m = bareMachine();
    m.inputBehavior = InputBehavior::SPAWNER;
    m.outputBehavior = OutputBehavior::CONSUMER;
    m.faults = vec![factory_sim::machine::Fault {
        faultChanceMilli: 500,
        faultMessage: "F".to_string(),
        faultTimeHighUs: 10000000,
        faultTimeLowUs: 10000000,
    }];
    m.state = OPCState::FAULTED;
    m.currentFault = Some(0);
    m.faultTimeCurrentUs = 10000000;
    m.outputInventory = 2;
    let mut belts: Vec<ConveyorBelt> = vec![];
    m.update(&mut belts, 1000);
    // input and processing are gated while FAULTED...
    assert_eq!(m.inputInventory, 0);
    assert_eq!(m.producedCount, 0);
    assert_eq!(m.consumedCount, 0);
    // ...recovery only accumulated, and output drained one unit
    assert_eq!(m.state, OPCState::FAULTED);
    assert_eq!(m.faultClockUs, 1000);
    assert_eq!(m.outputInventory, 1);
}

#[test]
fn classifier_debounces_starved() {
    let mut m = bareMachine();
    m.cost = 2;
    // no input, not waiting: the starved condition holds
    assert_eq!(m.state, OPCState::PRODUCING);
    m.updateState();
    // first evaluation only arms the debounce bit
    assert_eq!(m.state, OPCState::PRODUCING);
    assert_eq!(m.stateChangeCount, 0);
    m.updateState();
    assert_eq!(m.state, OPCState::STARVED);
    assert_eq!(m.stateChangeCount, 1);
}

#[test]
fn classifier_leaves_faulted_alone() {
    let mut m = bareMachine();
    m.state = OPCState::FAULTED;
    m.currentFault = None;
    m.updateState();
    assert_eq!(m.state, OPCState::FAULTED);
    assert_eq!(m.stateChangeCount, 0);
}

#[test]
fn state_text_is_lowercased() {
    assert_eq!(OPCState::PRODUCING.toText(), "producing");
    assert_eq!(OPCState::STARVEDBLOCKED.toText(), "starved and blocked");
}

#[test]
fn config_builds_line() {
    let f = factorySetup(&lineCfg()).unwrap();
    assert_eq!(f.machines.len(), 2);
    assert_eq!(f.conveyors.len(), 1);
    assert_eq!(f.pollRateUs, 100000);
    assert_eq!(f.machines[0].inputBehavior, InputBehavior::SPAWNER);
    assert_eq!(f.machines[0].outputBehavior, OutputBehavior::SINGLE);
    assert_eq!(f.machines[0].processingBehavior, ProcessingBehavior::DEFAULT);
    assert_eq!(f.machines[0].outputIDs, vec![0]);
    assert_eq!(f.machines[1].inputBehavior, InputBehavior::SINGLE);
    assert_eq!(f.machines[1].outputBehavior, OutputBehavior::CONSUMER);
    assert_eq!(f.machines[1].inputIDs, vec![0]);
    assert_eq!(f.machines[0].processingTickSpeedUs, 100000);
    assert_eq!(f.conveyors[0].beltSpeedUs, 50000);
    assert_eq!(f.conveyors[0].capacity, 3);
}

#[test]
fn config_keywords_ignore_case() {
    let mut cfg = lineCfg();
    cfg.factory.machines[0].state = "Blocked".to_string();
    cfg.factory.machines[0].inputBehavior = "SPAWNER".to_string();
    let f = factorySetup(&cfg).unwrap();
    assert_eq!(f.machines[0].state, OPCState::BLOCKED);
    assert_eq!(f.machines[0].inputBehavior, InputBehavior::SPAWNER);
}

#[test]
fn config_rejections() {
    let mut cfg = lineCfg();
    cfg.factory.pollRateMs = 0;
    expectErr(&cfg, ConfigError::ZeroPollRate);

    let mut cfg = lineCfg();
    cfg.factory.conveyors[0].capacity = 0;
    expectErr(&cfg, ConfigError::ZeroBeltCapacity);

    let mut cfg = lineCfg();
    cfg.factory.machines[1].inputIDs = vec!["missing".to_string()];
    expectErr(&cfg, ConfigError::UnknownConveyor);

    let mut cfg = lineCfg();
    cfg.factory.conveyors[0].inputID = Some("b".to_string());
    expectErr(&cfg, ConfigError::SelfFeedingConveyor);

    let mut cfg = lineCfg();
    cfg.factory.conveyors.push(JSONConveyor {
        id: "b".to_string(),
        capacity: 1,
        beltSpeedMs: 1,
        inputID: None,
    });
    expectErr(&cfg, ConfigError::DuplicateConveyorID);

    let mut cfg = lineCfg();
    cfg.factory.conveyors.push(JSONConveyor {
        id: "c".to_string(),
        capacity: 1,
        beltSpeedMs: 1,
        inputID: Some("d".to_string()),
    });
    cfg.factory.conveyors.push(JSONConveyor {
        id: "d".to_string(),
        capacity: 1,
        beltSpeedMs: 1,
        inputID: Some("c".to_string()),
    });
    expectErr(&cfg, ConfigError::CyclicConveyors);

    let mut cfg = lineCfg();
    cfg.factory.machines[0].faults = vec![JSONFault {
        faultChanceMilli: 1001,
        faultMessage: "f".to_string(),
        faultTimeHighMs: 1,
        faultTimeLowMs: 1,
    }];
    expectErr(&cfg, ConfigError::BadFaultChance);

    let mut cfg = lineCfg();
    cfg.factory.machines[0].faults = vec![JSONFault {
        faultChanceMilli: 0,
        faultMessage: "f".to_string(),
        faultTimeHighMs: 1,
        faultTimeLowMs: 2,
    }];
    expectErr(&cfg, ConfigError::BadFaultTimes);
}

fn runFor(sim: &mut Simulation, startUs: u128, stepUs: u128, steps: u32) -> u128 {
    let mut now = startUs;
    for _ in 0..steps {
        now += stepUs;
        sim.step(now, SimulationState::RUNNING);
    }
    now
}

#[test]
fn upstream_chain_without_cycle_is_accepted() {
    let mut cfg = lineCfg();
    cfg.factory.conveyors.push(JSONConveyor {
        id: "c".to_string(),
        capacity: 1,
        beltSpeedMs: 1,
        inputID: Some("b".to_string()),
    });
    cfg.factory.conveyors.push(JSONConveyor {
        id: "d".to_string(),
        capacity: 1,
        beltSpeedMs: 1,
        inputID: Some("c".to_string()),
    });
    let f = factorySetup(&cfg).unwrap();
    assert_eq!(f.conveyors[1].inputID, Some(0));
    assert_eq!(f.conveyors[2].inputID, Some(1));
}

#[test]
fn line_produces_and_respects_buffers() {
    let f = factorySetup(&lineCfg()).unwrap();
    let mut sim = Simulation::new(f, 0);
    // ten simulated seconds in 10 ms steps
    runFor(&mut sim, 0, 10000, 1000);
    let produced = sim.factory.machines[0].producedCount;
    let consumed = sim.factory.machines[1].consumedCount;
    assert!(produced >= 50, "source produced {}", produced);
    assert!(consumed >= 50, "sink consumed {}", consumed);
    assert!(produced <= 101);
    for m in &sim.factory.machines {
        assert!(m.inputInventory <= m.inputInvCapacity);
        assert!(m.outputInventory <= m.outputInvCapacity);
    }
}

#[test]
fn pause_freezes_production() {
    let f = factorySetup(&lineCfg()).unwrap();
    let mut sim = Simulation::new(f, 0);
    let now = runFor(&mut sim, 0, 10000, 200);
    let producedBefore = sim.factory.machines[0].producedCount;
    // a long pause passes...
    let r = sim.step(now + 5000000, SimulationState::PAUSED);
    assert!(r.paused);
    // ...and the first resumed step must not replay the gap
    let r = sim.step(now + 5010000, SimulationState::RUNNING);
    assert!(!r.paused);
    assert_eq!(r.deltaTimeUs, 0);
    let producedAfter = sim.factory.machines[0].producedCount;
    assert!(producedAfter <= producedBefore + 1);
}

#[test]
fn timer_stops_the_run() {
    let f = factorySetup(&lineCfg()).unwrap();
    let mut sim = Simulation::new(f, 1000000);
    let r = sim.step(999999, SimulationState::RUNNING);
    assert!(!r.stopped);
    let r = sim.step(1000001, SimulationState::RUNNING);
    assert!(r.stopped);
}

#[test]
fn registers_toggle_and_clocks() {
    let mut regs = ControlRegisters::new();
    assert_eq!(regs.state, SimulationState::STOP);
    assert_eq!(regs.configNameOrDefault(), "factory.json");
    regs.setConfig("line.json".to_string());
    assert_eq!(regs.configNameOrDefault(), "line.json");

    regs.setTimer(-1);
    assert_eq!(regs.toggleSim(ConfigCheck::VALID), ToggleResponse::NEGATIVE_TIMER);
    assert_eq!(regs.state, SimulationState::STOP);
    regs.setTimer(2);
    assert_eq!(regs.timerLimitUs, 120000000);
    assert_eq!(
        regs.toggleSim(ConfigCheck::FILE_MISSING),
        ToggleResponse::FILE_MISSING
    );
    assert_eq!(
        regs.toggleSim(ConfigCheck::BAD_STRUCTURE),
        ToggleResponse::BAD_STRUCTURE
    );
    assert_eq!(regs.toggleSim(ConfigCheck::VALID), ToggleResponse::SUCCESS);
    assert_eq!(regs.state, SimulationState::RUNNING);

    regs.addTime(10);
    regs.addTime(5);
    assert_eq!(regs.runtimeUs, 15);
    assert_eq!(regs.activeTimeUs, 15);
    regs.suspendSim();
    assert_eq!(regs.state, SimulationState::PAUSED);
    regs.addTime(7);
    assert_eq!(regs.runtimeUs, 22);
    assert_eq!(regs.activeTimeUs, 15);
    regs.suspendSim();
    assert_eq!(regs.state, SimulationState::RUNNING);
    assert_eq!(regs.timeRemaining(), 120000000 - 15);
    regs.exitSim();
    assert_eq!(regs.state, SimulationState::EXIT);
    assert_eq!(regs.stateText(), "error");
}

#[test]
fn toggle_twice_returns_to_stop_unchanged() {
    let mut regs = ControlRegisters::new();
    regs.setConfig("a.json".to_string());
    regs.setTimer(1);
    let name = regs.configNameOrDefault();
    let limit = regs.timerLimitUs;
    assert_eq!(regs.toggleSim(ConfigCheck::VALID), ToggleResponse::SUCCESS);
    assert_eq!(regs.toggleSim(ConfigCheck::VALID), ToggleResponse::SUCCESS);
    assert_eq!(regs.state, SimulationState::STOP);
    assert_eq!(regs.configNameOrDefault(), name);
    assert_eq!(regs.timerLimitUs, limit);
}

#[test]
fn toggle_message_texts() {
    assert_eq!(ToggleResponse::SUCCESS.message(), "success");
    assert_eq!(
        ToggleResponse::NEGATIVE_TIMER.message(),
        "Time cannot be negative."
    );
    assert_eq!(ToggleResponse::FILE_MISSING.message(), "File does not exist.");
    assert_eq!(
        ToggleResponse::BAD_STRUCTURE.message(),
        "JSON file has invalid structure."
    );
}

#[test]
fn projection_names_and_teardown() {
    let f = factorySetup(&lineCfg()).unwrap();
    let plan = serverSetup(&f, "MyLine");
    assert_eq!(plan.rootID, "MyLine");
    assert_eq!(plan.machines.len(), 2);
    let (nodes, tags) = &plan.machines[0];
    assert_eq!(nodes.folderName, "Machine-ID-src");
    assert_eq!(nodes.stateNode, "src-state");
    assert_eq!(nodes.faultMsgNode, "src-fault-msg");
    assert_eq!(nodes.producedNode, "src-produced-count");
    assert_eq!(tags.stateText, "producing");
    assert_eq!(tags.faultMessage, "");
    assert_eq!(tags.producedCount, 0);
    assert!(nodes.sensorNode.is_none());

    let ids = teardownIDs(&plan);
    assert!(ids.contains(&"MyLine".to_string()));
    assert!(ids.contains(&"src-state".to_string()));
    assert!(ids.contains(&"snk-output-inventory".to_string()));
    assert!(ids.contains(&"src-folder".to_string()));
    assert_eq!(ids.len(), 1 + 2 * 9);
}

#[test]
fn poll_runs_classifier() {
    let mut f = factorySetup(&lineCfg()).unwrap();
    // the sink is starved at start: two polls debounce it into STARVED
    let tags = serverPoll(&mut f);
    assert_eq!(tags.len(), 2);
    assert_eq!(tags[1].stateText, "producing");
    let tags = serverPoll(&mut f);
    assert_eq!(tags[1].stateText, "starved");
}

#[test]
fn ascii_case_comparison() {
    assert!(eqIgnoreAsciiCase("Spawner", "spawner"));
    assert!(eqIgnoreAsciiCase("CONSUMER", "consumer"));
    assert!(!eqIgnoreAsciiCase("default", "single"));
    assert!(!eqIgnoreAsciiCase("spawn", "spawner"));
}

#[test]
fn sensor_machine_gets_sensor_node() {
    let mut cfg = lineCfg();
    cfg.factory.machines[0].sensor = true;
    cfg.factory.machines[0].sensorBaselineMilli = 20000;
    cfg.factory.machines[0].sensorVarianceMilli = 2000;
    let f = factorySetup(&cfg).unwrap();
    assert!(f.machines[0].sensor);
    assert_eq!(f.machines[0].baselineMilli, 20000);
    let plan = serverSetup(&f, "MyLine");
    assert_eq!(
        plan.machines[0].0.sensorNode.as_deref(),
        Some("src-sensor")
    );
    let ids = teardownIDs(&plan);
    assert_eq!(ids.len(), 1 + 10 + 9);
}

#[test]
fn saturating_counters() {
    assert_eq!(factory_sim::arith::satAddUsize(usize::MAX - 1, 1), usize::MAX);
    assert_eq!(factory_sim::arith::satAddUsize(usize::MAX, 5), usize::MAX);
    assert_eq!(factory_sim::arith::satAddU128(3, 4), 7);
}
