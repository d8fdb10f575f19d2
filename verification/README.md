# alvr_bravr

The verified core of BRAVR, an access-point-assisted reinforcement learning
bitrate adaptation for VR streaming over Wi-Fi.

`src/` holds the logic that works on integers, texts and structure, each
function proved against its contract:

- `ap_stats`: the access point report and the search for the client's station
  and interface;
- `field_values`: the lenient reading of report fields ("N/A", "unknown",
  flags written as numbers or words);
- `text_table`: a small map keyed by text that keeps insertion order;
- `ap_telemetry`: airtime accounting per station from cumulative counters,
  channel counter growth and transmit MCS sums over a window of reports;
- `bitrate`: the bounded report history, the frame size and decoder latency
  bookkeeping, the action mask with safety shielding, ladder moves and the
  NestVR rule;
- `learning_env`: the agent's action history and the classification of
  bitrate switches;
- `sarsa_agent`: the n-step experience memory of the SARSA agent;
- `statistics`: the colours of plotted series.

`app/` holds what works in floating point or through libtorch, serde and the
rest of the streaming server: metrics, rewards, state vectors, the neural
agent, the bitrate manager and the statistics tab state.
